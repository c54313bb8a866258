use vstd::prelude::*;

use crate::model::{ArtistInfo, ArtistUrl};

verus! {

/// Why a crawl cannot go on.
#[derive(Clone, Copy, Debug, PartialEq, Eq, Structural)]
pub enum CrawlError {
    /// An artist of this name was already emitted: the bookkeeping is out of step.
    DuplicateArtist,
    /// The source could not be reached at all.
    TransportFailure,
    /// The entity counter would leave the range of `usize`.
    OffsetOverflow,
}

/// The names of a sequence of artist records, in order.
pub open spec fn names_of(artists: Seq<ArtistInfo>) -> Seq<Seq<char>> {
    artists.map_values(|a: ArtistInfo| a.name@)
}

/// The persisted crawl state: how many artists were emitted, and a record of each.
///
/// `artists` plays the part of a map from name to record: each record is keyed by
/// its own name, and no name occurs twice.
#[derive(Debug)]
pub struct ScraperState {
    pub artists: Vec<ArtistInfo>,
    pub next_artist_number: usize,
}

impl ScraperState {
    /// The emitted names, in order of emission.
    pub open spec fn names(&self) -> Seq<Seq<char>> {
        names_of(self.artists@)
    }

    /// Whether an artist of this name was emitted.
    pub open spec fn is_known(&self, name: Seq<char>) -> bool {
        self.names().contains(name)
    }

    /// Well-formed: every emitted artist was recorded exactly once, and the counter
    /// equals the number of emissions.
    pub open spec fn wf(&self) -> bool {
        &&& self.names().no_duplicates()
        &&& self.next_artist_number == self.artists@.len()
    }

    /// An empty state: nothing emitted yet.
    pub fn new() -> (r: ScraperState)
        ensures
            r.wf(),
            r.next_artist_number == 0,
            r.artists@.len() == 0,
    {
        ScraperState { artists: Vec::new(), next_artist_number: 0 }
    }

    /// Whether an artist of this name is known.
    pub fn contains_artist(&self, name: &String) -> (r: bool)
        ensures
            r == self.is_known(name@),
    {
        let mut i: usize = 0;
        while i < self.artists.len()
            invariant
                i <= self.artists@.len(),
                forall|j: int| 0 <= j < i ==> self.artists@[j].name@ != name@,
            decreases self.artists@.len() - i,
        {
            if self.artists[i].name == *name {
                proof {
                    assert(self.names()[i as int] == name@);
                }
                return true;
            }
            i += 1;
        }
        proof {
            if self.names().contains(name@) {
                let k = self.names().index_of(name@);
                assert(self.artists@[k].name@ == name@);
            }
        }
        false
    }

    /// Records a newly discovered artist. Fails, changing nothing, when an artist
    /// of that name is already known.
    pub fn new_artist_from_url(&mut self, artist_url: ArtistUrl) -> (r: Result<(), CrawlError>)
        ensures
            r is Err <==> old(self).is_known(artist_url.name@),
            r is Err ==> r == Err::<(), CrawlError>(CrawlError::DuplicateArtist) && *final(self)
                == *old(self),
            r is Ok ==> final(self).artists@.len() == old(self).artists@.len() + 1
                && final(self).artists@.drop_last() == old(self).artists@
                && final(self).artists@.last().name@ == artist_url.name@
                && final(self).artists@.last().url@ == artist_url.url@
                && final(self).artists@.last().discography.is_empty()
                && final(self).artists@.last().last_scrape_completed_on == 0
                && final(self).names() == old(self).names().push(artist_url.name@),
            final(self).next_artist_number == old(self).next_artist_number,
            old(self).names().no_duplicates() ==> final(self).names().no_duplicates(),
    {
        if self.contains_artist(&artist_url.name) {
            return Err(CrawlError::DuplicateArtist);
        }
        let info = ArtistInfo::from_url(artist_url);
        self.artists.push(info);
        proof {
            assert(self.artists@.drop_last() =~= old(self).artists@);
            assert(self.names() =~= old(self).names().push(artist_url.name@));
            if old(self).names().no_duplicates() {
                lemma_push_fresh_keeps_distinct(old(self).names(), artist_url.name@);
            }
        }
        Ok(())
    }

    /// Emits one artist: counts it and records it, both or neither. Fails, changing
    /// nothing, when the name is already known or the counter is at its limit.
    pub fn record_emission(&mut self, artist_url: ArtistUrl) -> (r: Result<(), CrawlError>)
        requires
            old(self).wf(),
        ensures
            final(self).wf(),
            r == Err::<(), CrawlError>(CrawlError::DuplicateArtist) <==> old(self).is_known(
                artist_url.name@,
            ),
            r == Err::<(), CrawlError>(CrawlError::OffsetOverflow) <==> !old(self).is_known(
                artist_url.name@,
            ) && old(self).next_artist_number == usize::MAX,
            r is Err ==> *final(self) == *old(self),
            r is Ok <==> !old(self).is_known(artist_url.name@) && old(self).next_artist_number
                < usize::MAX,
            r is Ok ==> final(self).next_artist_number == old(self).next_artist_number + 1
                && final(self).names() == old(self).names().push(artist_url.name@)
                && final(self).artists@.drop_last() == old(self).artists@,
    {
        if self.contains_artist(&artist_url.name) {
            return Err(CrawlError::DuplicateArtist);
        }
        if self.next_artist_number == usize::MAX {
            return Err(CrawlError::OffsetOverflow);
        }
        let r = self.new_artist_from_url(artist_url);
        self.next_artist_number = self.next_artist_number + 1;
        r
    }
}

proof fn lemma_push_fresh_keeps_distinct(s: Seq<Seq<char>>, x: Seq<char>)
    requires
        s.no_duplicates(),
        !s.contains(x),
    ensures
        s.push(x).no_duplicates(),
{
    let t = s.push(x);
    assert forall|i: int, j: int| 0 <= i < t.len() && 0 <= j < t.len() && i != j implies t[i]
        != t[j] by {
        if i == s.len() {
            assert(s[j] == t[j]);
        } else if j == s.len() {
            assert(s[i] == t[i]);
        }
    }
}

} // verus!
