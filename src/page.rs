use vstd::prelude::*;

use crate::model::{ArtistUrl, ReleaseUrl};

verus! {

/// One row of a listing page as read from its markup: the link and the display name,
/// either of which the markup may lack.
#[derive(Debug)]
pub struct RawRow {
    pub href: Option<String>,
    pub name: Option<String>,
}

/// A listing page that lacks an expected part.
#[derive(Clone, Copy, Debug, PartialEq, Eq, Structural)]
pub enum PageError {
    /// The row at this position has no link.
    MissingLink(usize),
    /// The row at this position has a link but no display name.
    MissingName(usize),
}

/// Whether a row has both its link and its name.
pub open spec fn complete(row: RawRow) -> bool {
    row.href is Some && row.name is Some
}

/// What checking `rows` gives: the first incomplete row's error, or success.
pub open spec fn first_problem(rows: Seq<RawRow>) -> Option<PageError> {
    if exists|i: int| 0 <= i < rows.len() && !complete(#[trigger] rows[i]) {
        let i = choose|i: int|
            0 <= i < rows.len() && !complete(#[trigger] rows[i]) && forall|j: int|
                0 <= j < i ==> complete(#[trigger] rows[j]);
        if rows[i].href is None {
            Some(PageError::MissingLink(i as usize))
        } else {
            Some(PageError::MissingName(i as usize))
        }
    } else {
        None
    }
}

/// A complete row read as the pair (name, link) that it holds.
pub open spec fn row_fields(row: RawRow) -> (Seq<char>, Seq<char>) {
    (row.name->Some_0@, row.href->Some_0@)
}

proof fn lemma_first_problem(rows: Seq<RawRow>, i: int)
    requires
        0 <= i < rows.len(),
        !complete(rows[i]),
        forall|j: int| 0 <= j < i ==> complete(#[trigger] rows[j]),
    ensures
        first_problem(rows) == if rows[i].href is None {
            Some(PageError::MissingLink(i as usize))
        } else {
            Some(PageError::MissingName(i as usize))
        },
{
    let k = choose|k: int|
        0 <= k < rows.len() && !complete(#[trigger] rows[k]) && forall|j: int|
            0 <= j < k ==> complete(#[trigger] rows[j]);
    if k < i {
        assert(complete(rows[k]));
    } else if k > i {
        assert(complete(rows[i]));
    }
}

/// The entity references on a listing page, in page order: each row gives its display
/// name and link. Fails on the first row that lacks either.
pub fn checked_rows(rows: Vec<RawRow>) -> (r: Result<Vec<(String, String)>, PageError>)
    ensures
        match first_problem(rows@) {
            Some(e) => r == Err::<Vec<(String, String)>, PageError>(e),
            None => r is Ok && r->Ok_0@.len() == rows@.len() && forall|i: int|
                0 <= i < rows@.len() ==> (#[trigger] r->Ok_0@[i].0@, r->Ok_0@[i].1@)
                    == row_fields(rows@[i]),
        },
{
    let mut out: Vec<(String, String)> = Vec::new();
    let mut i: usize = 0;
    while i < rows.len()
        invariant
            i <= rows@.len(),
            out@.len() == i,
            forall|j: int| 0 <= j < i ==> complete(#[trigger] rows@[j]),
            forall|j: int|
                0 <= j < i ==> (#[trigger] out@[j].0@, out@[j].1@) == row_fields(rows@[j]),
        decreases rows@.len() - i,
    {
        let row = &rows[i];
        match (&row.href, &row.name) {
            (Some(href), Some(name)) => {
                out.push((name.clone(), href.clone()));
            },
            (None, _) => {
                proof {
                    lemma_first_problem(rows@, i as int);
                }
                return Err(PageError::MissingLink(i));
            },
            (Some(_), None) => {
                proof {
                    lemma_first_problem(rows@, i as int);
                }
                return Err(PageError::MissingName(i));
            },
        }
        i += 1;
    }
    Ok(out)
}

/// The artists listed on an index page, in page order.
pub fn artist_rows(rows: Vec<RawRow>) -> (r: Result<Vec<ArtistUrl>, PageError>)
    ensures
        match first_problem(rows@) {
            Some(e) => r == Err::<Vec<ArtistUrl>, PageError>(e),
            None => r is Ok && r->Ok_0@.len() == rows@.len() && forall|i: int|
                0 <= i < rows@.len() ==> (#[trigger] r->Ok_0@[i].name@, r->Ok_0@[i].url@)
                    == row_fields(rows@[i]),
        },
{
    let pairs = checked_rows(rows)?;
    let mut out: Vec<ArtistUrl> = Vec::new();
    let mut i: usize = 0;
    while i < pairs.len()
        invariant
            i <= pairs@.len(),
            out@.len() == i,
            forall|j: int|
                0 <= j < i ==> (#[trigger] out@[j].name@, out@[j].url@) == (
                    pairs@[j].0@,
                    pairs@[j].1@,
                ),
        decreases pairs@.len() - i,
    {
        let (name, url) = &pairs[i];
        out.push(ArtistUrl { name: name.clone(), url: url.clone() });
        i += 1;
    }
    Ok(out)
}

/// The releases listed on a discography page, in page order.
pub fn release_rows(rows: Vec<RawRow>) -> (r: Result<Vec<ReleaseUrl>, PageError>)
    ensures
        match first_problem(rows@) {
            Some(e) => r == Err::<Vec<ReleaseUrl>, PageError>(e),
            None => r is Ok && r->Ok_0@.len() == rows@.len() && forall|i: int|
                0 <= i < rows@.len() ==> (#[trigger] r->Ok_0@[i].name@, r->Ok_0@[i].url@)
                    == row_fields(rows@[i]),
        },
{
    let pairs = checked_rows(rows)?;
    let mut out: Vec<ReleaseUrl> = Vec::new();
    let mut i: usize = 0;
    while i < pairs.len()
        invariant
            i <= pairs@.len(),
            out@.len() == i,
            forall|j: int|
                0 <= j < i ==> (#[trigger] out@[j].name@, out@[j].url@) == (
                    pairs@[j].0@,
                    pairs@[j].1@,
                ),
        decreases pairs@.len() - i,
    {
        let (name, url) = &pairs[i];
        out.push(ReleaseUrl { name: name.clone(), url: url.clone() });
        i += 1;
    }
    Ok(out)
}

} // verus!
