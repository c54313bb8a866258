use vstd::prelude::*;

use crate::model::{ArtistDiscography, ArtistUrl, Release, ReleaseUrl, Track};
use vstd::utf8::encode_utf8;

verus! {

/// What a purchase option on a release page offers, read from its label.
#[derive(Clone, Copy, Debug, PartialEq, Eq, Structural)]
pub enum PurchaseOption {
    DigitalTrack,
    DigitalAlbum,
    Cd,
    CassetteTape,
    Vinyl,
    /// Anything else; skipped.
    Other,
}

/// Whether `pat` occurs in `s` as a contiguous run.
pub open spec fn has_infix(s: Seq<u8>, pat: Seq<u8>) -> bool {
    exists|i: int| 0 <= i && i + pat.len() <= s.len() && #[trigger] s.subrange(i, i + pat.len()) == pat
}

/// The bytes of "Vinyl".
pub open spec fn vinyl_upper() -> Seq<u8> {
    seq![86u8, 105u8, 110u8, 121u8, 108u8]
}

/// The bytes of "vinyl".
pub open spec fn vinyl_lower() -> Seq<u8> {
    seq![118u8, 105u8, 110u8, 121u8, 108u8]
}

/// The purchase option that a label names: the digital and tape formats by their exact
/// label, vinyl by any label that mentions it.
pub open spec fn option_of(label: Seq<char>) -> PurchaseOption {
    if label == "Digital Track"@ {
        PurchaseOption::DigitalTrack
    } else if label == "Digital Album"@ {
        PurchaseOption::DigitalAlbum
    } else if label == "CD"@ {
        PurchaseOption::Cd
    } else if label == "Cassette Tape"@ {
        PurchaseOption::CassetteTape
    } else if has_infix(encode_utf8(label), vinyl_upper()) || has_infix(
        encode_utf8(label),
        vinyl_lower(),
    ) {
        PurchaseOption::Vinyl
    } else {
        PurchaseOption::Other
    }
}

/// Whether `pat` occurs in `s`.
fn contains_bytes(s: &[u8], pat: &[u8]) -> (r: bool)
    ensures
        r == has_infix(s@, pat@),
{
    if pat.len() == 0 {
        assert(s@.subrange(0, 0 + pat@.len() as int) =~= pat@);
        return true;
    }
    if pat.len() > s.len() {
        return false;
    }
    let n: usize = s.len();
    let last: usize = n - pat.len();
    let mut i: usize = 0;
    while i <= last
        invariant
            last == s@.len() - pat@.len(),
            n == s@.len(),
            pat@.len() > 0,
            forall|k: int| 0 <= k < i ==> #[trigger] s@.subrange(k, k + pat@.len()) != pat@,
        decreases last + 1 - i,
    {
        let mut j: usize = 0;
        let mut same = true;
        while j < pat.len()
            invariant
                i <= last,
                last == s@.len() - pat@.len(),
                i + pat@.len() <= s@.len(),
                n == s@.len(),
                j <= pat@.len(),
                same == (forall|m: int| 0 <= m < j ==> s@[i + m] == pat@[m]),
            decreases pat@.len() - j,
        {
            if s[i + j] != pat[j] {
                same = false;
            }
            j += 1;
        }
        if same {
            assert(s@.subrange(i as int, i + pat@.len()) =~= pat@);
            return true;
        }
        proof {
            let k = choose|m: int| 0 <= m < pat@.len() && s@[i + m] != pat@[m];
            assert(s@.subrange(i as int, i + pat@.len())[k] != pat@[k]);
        }
        i += 1;
    }
    assert forall|k: int| 0 <= k && k + pat@.len() <= s@.len() implies #[trigger] s@.subrange(
        k,
        k + pat@.len(),
    ) != pat@ by {
        assert(k < i);
    }
    false
}

/// Reads a purchase option's label.
pub fn classify_purchase_option(label: &String) -> (r: PurchaseOption)
    ensures
        r == option_of(label@),
{
    proof {
        reveal_strlit("Digital Track");
        reveal_strlit("Digital Album");
        reveal_strlit("CD");
        reveal_strlit("Cassette Tape");
    }
    if *label == "Digital Track".to_owned() {
        PurchaseOption::DigitalTrack
    } else if *label == "Digital Album".to_owned() {
        PurchaseOption::DigitalAlbum
    } else if *label == "CD".to_owned() {
        PurchaseOption::Cd
    } else if *label == "Cassette Tape".to_owned() {
        PurchaseOption::CassetteTape
    } else {
        let bytes = label.as_str().as_bytes();
        let upper: [u8; 5] = [86, 105, 110, 121, 108];
        let lower: [u8; 5] = [118, 105, 110, 121, 108];
        assert(upper@ =~= vinyl_upper());
        assert(lower@ =~= vinyl_lower());
        if contains_bytes(bytes, upper.as_slice()) || contains_bytes(bytes, lower.as_slice()) {
            PurchaseOption::Vinyl
        } else {
            PurchaseOption::Other
        }
    }
}

/// How a release is filed in a discography. Purchase options alone cannot tell an
/// album from an EP, or a multi-track single from either: those stay unclassified.
#[derive(Clone, Copy, Debug, PartialEq, Eq, Structural)]
pub enum ReleaseKind {
    Album,
    EP,
    Single,
    Unclassified,
}

/// A release is a single when one of its purchase options is a digital track, and
/// unclassified otherwise.
pub open spec fn kind_of(labels: Seq<Seq<char>>) -> ReleaseKind {
    if exists|i: int| 0 <= i < labels.len() && option_of(#[trigger] labels[i]) == PurchaseOption::DigitalTrack {
        ReleaseKind::Single
    } else {
        ReleaseKind::Unclassified
    }
}

pub open spec fn views_of(labels: Seq<String>) -> Seq<Seq<char>> {
    labels.map_values(|l: String| l@)
}

/// Files a release by the labels of its purchase options.
pub fn classify_release(labels: &Vec<String>) -> (r: ReleaseKind)
    ensures
        r == kind_of(views_of(labels@)),
{
    let mut i: usize = 0;
    while i < labels.len()
        invariant
            i <= labels@.len(),
            forall|k: int| 0 <= k < i ==> option_of(#[trigger] views_of(labels@)[k])
                != PurchaseOption::DigitalTrack,
        decreases labels@.len() - i,
    {
        if classify_purchase_option(&labels[i]) == PurchaseOption::DigitalTrack {
            assert(views_of(labels@)[i as int] == labels@[i as int]@);
            return ReleaseKind::Single;
        }
        i += 1;
    }
    ReleaseKind::Unclassified
}

/// The release that a release page describes, when its kind is known: a single is one
/// track, named as the release, lasting `single_duration`.
pub fn release_from_page(name: String, labels: &Vec<String>, single_duration: String) -> (r:
    Option<Release>)
    ensures
        kind_of(views_of(labels@)) == ReleaseKind::Unclassified ==> r is None,
        kind_of(views_of(labels@)) == ReleaseKind::Single ==> match r {
            Some(Release::Single { name: n, tracks }) => {
                &&& n@ == name@
                &&& tracks@.len() == 1
                &&& tracks@[0].index == 1
                &&& tracks@[0].name@ == name@
                &&& tracks@[0].duration@ == single_duration@
            },
            _ => false,
        },
{
    match classify_release(labels) {
        ReleaseKind::Single => {
            let track = Track { index: 1, name: name.clone(), duration: single_duration };
            Some(Release::Single { name, tracks: vec![track] })
        },
        _ => None,
    }
}

impl ArtistDiscography {
    /// Files a release under its kind, after those already there.
    pub fn add_release(&mut self, release: Release)
        ensures
            match release {
                Release::Album { .. } => final(self).albums@ == old(self).albums@.push(release)
                    && final(self).eps@ == old(self).eps@ && final(self).singles@ == old(
                    self,
                ).singles@,
                Release::EP { .. } => final(self).eps@ == old(self).eps@.push(release)
                    && final(self).albums@ == old(self).albums@ && final(self).singles@ == old(
                    self,
                ).singles@,
                Release::Single { .. } => final(self).singles@ == old(self).singles@.push(release)
                    && final(self).albums@ == old(self).albums@ && final(self).eps@ == old(
                    self,
                ).eps@,
            },
    {
        match release {
            Release::Album { .. } => self.albums.push(release),
            Release::EP { .. } => self.eps.push(release),
            Release::Single { .. } => self.singles.push(release),
        }
    }
}

/// The releases found on one discography page, handed out once each in the order
/// in which they appear on the page.
pub struct Releases {
    pub fetched_releases: Vec<ReleaseUrl>,
    /// How many were handed out.
    pub next_index: usize,
}

impl Releases {
    /// The releases of one discography page, none handed out yet.
    pub fn new(fetched_releases: Vec<ReleaseUrl>) -> (r: Releases)
        ensures
            r.fetched_releases@ == fetched_releases@,
            r.next_index == 0,
    {
        Releases { fetched_releases, next_index: 0 }
    }

    /// Starts handing the releases out again from the first.
    pub fn restart(&mut self)
        ensures
            final(self).fetched_releases@ == old(self).fetched_releases@,
            final(self).next_index == 0,
    {
        self.next_index = 0;
    }

    /// The next release in page order, or `None` once all were handed out.
    pub fn next(&mut self) -> (r: Option<ReleaseUrl>)
        ensures
            final(self).fetched_releases@ == old(self).fetched_releases@,
            old(self).next_index < old(self).fetched_releases@.len() ==> r == Some(
                old(self).fetched_releases@[old(self).next_index as int],
            ) && final(self).next_index == old(self).next_index + 1,
            old(self).next_index >= old(self).fetched_releases@.len() ==> r is None
                && final(self).next_index == old(self).next_index,
    {
        if self.next_index < self.fetched_releases.len() {
            let item = &self.fetched_releases[self.next_index];
            let copy = ReleaseUrl { name: item.name.clone(), url: item.url.clone() };
            self.next_index = self.next_index + 1;
            Some(copy)
        } else {
            None
        }
    }
}

/// The path of an artist's discography page on the artist's own site.
pub const DISCOGRAPHY_PATH: &'static str = "/music";

/// Why an artist's discography page cannot be located.
#[derive(Clone, Copy, Debug, PartialEq, Eq, Structural)]
pub enum DiscographyError {
    /// The artist's link is not a valid absolute URL.
    InvalidArtistUrl,
}

/// The URL `url` with its path replaced by `path`, if `url` parses as an absolute URL.
pub uninterp spec fn url_with_path(url: Seq<char>, path: Seq<char>) -> Option<Seq<char>>;

/// Relies on `url::Url::parse` and `Url::set_path` (re-exported by reqwest as
/// `reqwest::Url`): parses the link and replaces its path, serialising the result.
#[verifier::external_body]
fn replace_url_path(url: &str, path: &str) -> (r: Option<String>)
    ensures
        match r {
            Some(u) => url_with_path(url@, path@) == Some(u@),
            None => url_with_path(url@, path@) is None,
        },
{
    match reqwest::Url::parse(url) {
        Ok(mut parsed) => {
            parsed.set_path(path);
            Some(parsed.to_string())
        },
        Err(_) => None,
    }
}

/// Where an artist's discography page is: the artist's link with the discography path.
pub fn discography_page_url(artist_url: &ArtistUrl) -> (r: Result<String, DiscographyError>)
    ensures
        match url_with_path(artist_url.url@, DISCOGRAPHY_PATH@) {
            Some(u) => r is Ok && r->Ok_0@ == u,
            None => r == Err::<String, DiscographyError>(DiscographyError::InvalidArtistUrl),
        },
{
    match replace_url_path(artist_url.url.as_str(), DISCOGRAPHY_PATH) {
        Some(u) => Ok(u),
        None => Err(DiscographyError::InvalidArtistUrl),
    }
}

} // verus!
