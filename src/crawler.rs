use vstd::prelude::*;

use std::collections::VecDeque;

use crate::cursor::{next_page_to_fetch, page_matches_target, spec_next_page};
use vstd::arithmetic::div_mod::{lemma_div_by_multiple, lemma_div_is_ordered, lemma_fundamental_div_mod};
use crate::model::ArtistUrl;
use crate::state::{CrawlError, ScraperState};

verus! {

/// A fetch of the next page is started once no more than this many artists are queued.
pub const LOW_WATER_MARK: usize = 5;

/// The fixed delay before a failed page fetch is tried again.
pub const RETRY_DELAY_MILLIS: u64 = 100;

/// Where the index crawler stands between two calls.
#[derive(Clone, Copy, Debug, PartialEq, Eq, Structural)]
pub enum PollState {
    /// Ready to serve the next artist (or to find that it must wait).
    HasArtistsFetched,
    /// Waiting for the page fetch in flight.
    WaitingForPageFetch,
    /// A page came back and is being parsed.
    WaitingForPageParse,
    /// A page fetch failed; waiting before it is tried again.
    WaitingForSleep,
}

/// How a page fetch ended.
#[derive(Clone, Copy, Debug, PartialEq, Eq, Structural)]
pub enum FetchOutcome {
    /// The page arrived.
    Fetched,
    /// An HTTP error status or a timeout: worth trying again.
    SoftFailure,
    /// The source cannot be reached at all.
    TransportFailure,
}

/// What the driver of the crawler must do after a call.
#[derive(Debug)]
pub enum Step {
    /// Hand `artist` to the consumer; if `fetch` holds a page, start fetching it too.
    Emit { artist: ArtistUrl, fetch: Option<usize> },
    /// Start fetching page `fetch` if it holds one, then wait for the fetch in flight
    /// and report it through `on_fetch_done`.
    Await { fetch: Option<usize> },
    /// Parse the page that arrived and report it through `on_page_parsed`.
    Parse,
    /// Wait this long, then call `on_sleep_done`.
    Sleep { millis: u64 },
    /// The crawler is ready again: call `pull` for the next artist.
    Ready,
    /// The source has no more artists.
    Done,
    /// The crawl cannot go on.
    Fail(CrawlError),
}

/// The page fetch that a step asks the driver to start, if any.
pub open spec fn started_fetch(r: Step) -> Option<usize> {
    match r {
        Step::Emit { fetch, .. } => fetch,
        Step::Await { fetch } => fetch,
        _ => None,
    }
}

/// The names that a step hands to the consumer: one for `Emit`, none otherwise.
pub open spec fn emitted_name(r: Step) -> Seq<Seq<char>> {
    match r {
        Step::Emit { artist, .. } => seq![artist.name@],
        _ => Seq::empty(),
    }
}

/// What every call does to the crawl state: the counter grows by the number of
/// artists handed out, and each of them is recorded, in order.
pub open spec fn step_effect(before: ScraperState, after: ScraperState, r: Step) -> bool {
    &&& after.wf()
    &&& after.next_artist_number == before.next_artist_number + emitted_name(r).len()
    &&& after.names() == before.names() + emitted_name(r)
}

/// The abstract state of an index crawler.
pub struct CrawlerModel {
    pub poll_state: PollState,
    /// Artists parsed and not yet handed out, front first.
    pub queue: Seq<ArtistUrl>,
    /// Artists per index page; zero while unknown.
    pub per_page: nat,
    /// Whether a page fetch is in flight.
    pub fetch_pending: bool,
    /// The page of the last fetch started; zero before the first.
    pub current_page: nat,
    /// A short or empty page was seen: the index has no further pages.
    pub exhausted: bool,
    /// The pages fetched so far, retries left out.
    pub pages_fetched: Seq<nat>,
}

impl CrawlerModel {
    /// The offset of the first artist not yet queued, `next` having been emitted.
    pub open spec fn target(self, next: nat) -> nat {
        next + self.queue.len()
    }

    /// The page that the next fetch would ask for.
    pub open spec fn next_page(self, next: nat) -> nat {
        spec_next_page(next, self.queue.len(), self.per_page)
    }

    /// Whether a fetch, a retry delay or a parse is under way for the current page.
    pub open spec fn in_flight(self) -> bool {
        self.fetch_pending || self.poll_state != PollState::HasArtistsFetched
    }

    /// Whether a call for the next artist starts a fetch.
    pub open spec fn wants_fetch(self) -> bool {
        self.queue.len() <= LOW_WATER_MARK && !self.fetch_pending && !self.exhausted
    }

    /// Whether the fetch that a call for the next artist wants would overflow
    /// the offset arithmetic.
    pub open spec fn fetch_overflows(self, next: nat) -> bool {
        self.wants_fetch() && self.target(next) >= usize::MAX
    }

    /// The pages fetched, retries left out, increase strictly: no page is fetched
    /// twice but to retry a failure.
    pub open spec fn pages_increase(self) -> bool {
        forall|i: int, j: int|
            0 <= i < j < self.pages_fetched.len() ==> #[trigger] self.pages_fetched[i]
                < #[trigger] self.pages_fetched[j]
    }

    /// The crawler's invariant, `next` artists having been emitted.
    pub open spec fn inv(self, next: nat) -> bool {
        &&& self.poll_state != PollState::HasArtistsFetched ==> self.queue.len() == 0
        &&& self.poll_state == PollState::WaitingForPageFetch ==> self.fetch_pending
        &&& (self.poll_state == PollState::WaitingForSleep || self.poll_state
            == PollState::WaitingForPageParse) ==> !self.fetch_pending
        &&& self.exhausted ==> !self.in_flight()
        &&& self.in_flight() ==> self.current_page == self.next_page(next)
        &&& !self.in_flight() && !self.exhausted ==> self.next_page(next) > self.current_page
        &&& self.pages_increase()
        &&& self.pages_fetched.len() == 0 ==> self.current_page == 0
        &&& self.pages_fetched.len() > 0 ==> self.pages_fetched.last() == self.current_page
    }
}

/// The crawler after a fetch ended with `outcome`.
pub open spec fn after_fetch(m: CrawlerModel, outcome: FetchOutcome) -> CrawlerModel {
    match outcome {
        FetchOutcome::Fetched => CrawlerModel {
            poll_state: PollState::WaitingForPageParse,
            fetch_pending: false,
            ..m
        },
        FetchOutcome::SoftFailure => CrawlerModel {
            poll_state: PollState::WaitingForSleep,
            fetch_pending: false,
            ..m
        },
        FetchOutcome::TransportFailure => m,
    }
}

/// What the driver must do after a fetch ended with `outcome`.
pub open spec fn fetch_step(outcome: FetchOutcome) -> Step {
    match outcome {
        FetchOutcome::Fetched => Step::Parse,
        FetchOutcome::SoftFailure => Step::Sleep { millis: RETRY_DELAY_MILLIS },
        FetchOutcome::TransportFailure => Step::Fail(CrawlError::TransportFailure),
    }
}

/// The crawler once a fetch of page `p` was started.
pub open spec fn after_start(m: CrawlerModel, p: nat) -> CrawlerModel {
    CrawlerModel {
        fetch_pending: true,
        current_page: p,
        pages_fetched: m.pages_fetched.push(p),
        ..m
    }
}

/// The crawler after the retry delay: the same page is fetched again.
pub open spec fn after_sleep(m: CrawlerModel) -> CrawlerModel {
    CrawlerModel { poll_state: PollState::WaitingForPageFetch, fetch_pending: true, ..m }
}

/// The page size once `batch` was parsed: learnt from the first page.
pub open spec fn learnt_page_size(m: CrawlerModel, batch: Seq<ArtistUrl>) -> nat {
    if m.per_page == 0 {
        batch.len()
    } else {
        m.per_page
    }
}

/// The part of a parsed page not yet emitted: the page that holds offset `next`
/// begins `next % per_page` artists before it.
pub open spec fn unemitted(batch: Seq<ArtistUrl>, next: nat, per_page: nat) -> Seq<ArtistUrl> {
    if per_page == 0 || next % per_page >= batch.len() {
        Seq::empty()
    } else {
        batch.subrange((next % per_page) as int, batch.len() as int)
    }
}

/// Whether a parsed page fills the queue: it matches the page that holds offset
/// `next`, under the page size learnt from it.
pub open spec fn batch_matches(m: CrawlerModel, batch: Seq<ArtistUrl>, next: nat) -> bool {
    spec_next_page(next, 0, learnt_page_size(m, batch)) == m.current_page
}

/// The crawler once a parsed page that matches was taken in: the artists not yet
/// emitted are queued, and a page shorter than the page size (or empty) ends the index.
pub open spec fn after_install(m: CrawlerModel, batch: Seq<ArtistUrl>, next: nat) -> CrawlerModel {
    let p = learnt_page_size(m, batch);
    CrawlerModel {
        poll_state: PollState::HasArtistsFetched,
        queue: unemitted(batch, next, p),
        per_page: p,
        exhausted: p == 0 || batch.len() < p,
        ..m
    }
}

/// The crawler after the probing first page showed the page size to be `per_page`
/// and the wanted page to be another one.
pub open spec fn after_probe(m: CrawlerModel, per_page: nat) -> CrawlerModel {
    CrawlerModel { poll_state: PollState::WaitingForPageFetch, per_page, ..m }
}

/// A full page taken in at offset `next` carries the queue past the page holding `next`.
proof fn lemma_full_page_advances(next: nat, len: nat, p: nat)
    requires
        p > 0,
        len >= p,
    ensures
        next % p < len,
        (next + (len - next % p)) / (p as int) >= next / p + 1,
{
    let k = next as int / p as int;
    lemma_fundamental_div_mod(next as int, p as int);
    assert(next as int == p * k + next as int % p as int);
    let t = next + (len - next % p);
    assert(t >= p * (k + 1)) by (nonlinear_arith)
        requires
            t == p * k + len,
            len >= p,
    ;
    assert((k + 1) * p == p * (k + 1)) by (nonlinear_arith);
    lemma_div_is_ordered(p * (k + 1), t as int, p as int);
    lemma_div_by_multiple(k + 1, p as int);
}

/// The names that a run of steps hands to the consumer, in order.
pub open spec fn emitted_names(steps: Seq<Step>) -> Seq<Seq<char>>
    decreases steps.len(),
{
    if steps.len() == 0 {
        Seq::empty()
    } else {
        emitted_names(steps.drop_last()) + emitted_name(steps.last())
    }
}

/// The index crawler: hands out artists one at a time, fetching the index page by
/// page as the queue runs low, with at most one fetch in flight.
pub struct Artists {
    pub poll_state: PollState,
    /// Artists parsed from the last page and not yet handed out.
    pub fetched_artists: VecDeque<ArtistUrl>,
    /// Artists per index page; zero until the first page is parsed.
    pub artists_per_page: usize,
    /// Whether a page fetch is in flight.
    pub fetch_pending: bool,
    /// The page of the last fetch started.
    pub current_fetched_page_number: usize,
    /// A short or empty page was seen: the index has no further pages.
    pub exhausted: bool,
    /// The pages fetched so far, retries left out.
    pub pages_fetched: Ghost<Seq<nat>>,
}

impl View for Artists {
    type V = CrawlerModel;

    open spec fn view(&self) -> CrawlerModel {
        CrawlerModel {
            poll_state: self.poll_state,
            queue: self.fetched_artists@,
            per_page: self.artists_per_page as nat,
            fetch_pending: self.fetch_pending,
            current_page: self.current_fetched_page_number as nat,
            exhausted: self.exhausted,
            pages_fetched: self.pages_fetched@,
        }
    }
}

impl Artists {
    /// The crawler's invariant, together with the crawl state it serves.
    pub open spec fn inv(&self, st: &ScraperState) -> bool {
        st.wf() && self@.inv(st.next_artist_number as nat)
    }

    /// A crawler that has fetched nothing yet.
    pub fn new() -> (r: Artists)
        ensures
            r@.poll_state == PollState::HasArtistsFetched,
            r@.queue.len() == 0,
            r@.per_page == 0,
            !r@.fetch_pending,
            !r@.exhausted,
            r@.current_page == 0,
            r@.pages_fetched.len() == 0,
            forall|st: ScraperState| st.wf() ==> r.inv(&st),
    {
        Artists {
            poll_state: PollState::HasArtistsFetched,
            fetched_artists: VecDeque::new(),
            artists_per_page: 0,
            fetch_pending: false,
            current_fetched_page_number: 0,
            exhausted: false,
            pages_fetched: Ghost(Seq::empty()),
        }
    }

    /// Serves the next artist (the crawler must be ready). Starts a fetch of the next
    /// page when the queue runs low; hands out the front of the queue, counting and
    /// recording it; with an empty queue, ends if the index is exhausted and waits for
    /// the fetch in flight otherwise.
    pub fn pull(&mut self, st: &mut ScraperState) -> (r: Step)
        requires
            old(self).inv(old(st)),
            old(self)@.poll_state == PollState::HasArtistsFetched,
        ensures
            step_effect(*old(st), *final(st), r),
            !(r is Fail) ==> final(self).inv(final(st)),
            !(r is Fail) ==> started_fetch(r) == if old(self)@.wants_fetch() {
                Some(old(self)@.next_page(old(st).next_artist_number as nat) as usize)
            } else {
                None::<usize>
            },
            old(self)@.fetch_pending ==> (started_fetch(r) is None),
            !(r is Fail) ==> {
                &&& final(self)@.per_page == old(self)@.per_page
                &&& final(self)@.exhausted == old(self)@.exhausted
                &&& final(self)@.fetch_pending == (old(self)@.fetch_pending || old(
                    self,
                )@.wants_fetch())
                &&& final(self)@.pages_fetched == if old(self)@.wants_fetch() {
                    old(self)@.pages_fetched.push(old(self)@.next_page(old(st).next_artist_number as nat))
                } else {
                    old(self)@.pages_fetched
                }
            },
            old(self)@.fetch_overflows(old(st).next_artist_number as nat) ==> r == Step::Fail(
                CrawlError::OffsetOverflow,
            ),
            match r {
                Step::Emit { artist, .. } => {
                    &&& !old(self)@.fetch_overflows(old(st).next_artist_number as nat)
                    &&& old(self)@.queue.len() > 0
                    &&& artist == old(self)@.queue[0]
                    &&& final(self)@.queue == old(self)@.queue.drop_first()
                    &&& final(self)@.poll_state == PollState::HasArtistsFetched
                },
                Step::Await { .. } => {
                    &&& !old(self)@.fetch_overflows(old(st).next_artist_number as nat)
                    &&& old(self)@.queue.len() == 0
                    &&& !old(self)@.exhausted
                    &&& final(self)@.poll_state == PollState::WaitingForPageFetch
                },
                Step::Done => {
                    &&& old(self)@.queue.len() == 0
                    &&& old(self)@.exhausted
                    &&& final(self)@ == old(self)@
                },
                Step::Fail(e) => {
                    ||| e == CrawlError::OffsetOverflow && (old(self)@.fetch_overflows(
                        old(st).next_artist_number as nat,
                    ) || old(self)@.queue.len() > 0 && old(st).next_artist_number == usize::MAX)
                    ||| e == CrawlError::DuplicateArtist && !old(self)@.fetch_overflows(
                        old(st).next_artist_number as nat,
                    ) && old(self)@.queue.len() > 0 && old(st).is_known(
                        old(self)@.queue[0].name@,
                    )
                },
                _ => false,
            },
            !old(self)@.fetch_overflows(old(st).next_artist_number as nat) && old(
                self,
            )@.queue.len() > 0 && !old(st).is_known(old(self)@.queue[0].name@) && old(
                st,
            ).next_artist_number < usize::MAX ==> (r is Emit),
    {
        let mut fetch: Option<usize> = None;
        if self.fetched_artists.len() <= LOW_WATER_MARK {
            match self.trigger_fetch_next_artist_page(st) {
                Ok(f) => {
                    fetch = f;
                },
                Err(e) => {
                    return Step::Fail(e);
                },
            }
        }
        let ghost before = self@;
        match self.fetched_artists.pop_front() {
            Some(artist) => {
                let record = ArtistUrl { name: artist.name.clone(), url: artist.url.clone() };
                match st.record_emission(record) {
                    Ok(()) => {
                        proof {
                            assert(self@.queue =~= before.queue.drop_first());
                            assert(st.names() =~= old(st).names() + emitted_name(
                                Step::Emit { artist, fetch },
                            ));
                        }
                        Step::Emit { artist, fetch }
                    },
                    Err(e) => Step::Fail(e),
                }
            },
            None => {
                if self.exhausted {
                    Step::Done
                } else {
                    self.poll_state = PollState::WaitingForPageFetch;
                    Step::Await { fetch }
                }
            },
        }
    }

    /// Takes the end of the fetch in flight: a transport failure ends the crawl, a soft
    /// failure waits before the page is tried again, and a page that arrived is parsed.
    pub fn on_fetch_done(&mut self, st: &ScraperState, outcome: FetchOutcome) -> (r: Step)
        requires
            old(self).inv(st),
            old(self)@.poll_state == PollState::WaitingForPageFetch,
        ensures
            step_effect(*st, *st, r),
            final(self).inv(st),
            final(self)@ == after_fetch(old(self)@, outcome),
            r == fetch_step(outcome),
    {
        proof {
            assert(st.names() =~= st.names() + Seq::<Seq<char>>::empty());
        }
        match outcome {
            FetchOutcome::Fetched => {
                self.fetch_pending = false;
                self.poll_state = PollState::WaitingForPageParse;
                Step::Parse
            },
            FetchOutcome::SoftFailure => {
                self.fetch_pending = false;
                self.poll_state = PollState::WaitingForSleep;
                Step::Sleep { millis: RETRY_DELAY_MILLIS }
            },
            FetchOutcome::TransportFailure => Step::Fail(CrawlError::TransportFailure),
        }
    }

    /// After the retry delay: fetches again the page whose fetch failed.
    pub fn on_sleep_done(&mut self, st: &ScraperState) -> (r: Step)
        requires
            old(self).inv(st),
            old(self)@.poll_state == PollState::WaitingForSleep,
        ensures
            step_effect(*st, *st, r),
            final(self).inv(st),
            final(self)@ == after_sleep(old(self)@),
            r == (Step::Await { fetch: Some(old(self).current_fetched_page_number) }),
            old(self)@.current_page == old(self)@.next_page(st.next_artist_number as nat),
    {
        proof {
            assert(st.names() =~= st.names() + Seq::<Seq<char>>::empty());
        }
        self.fetch_pending = true;
        self.poll_state = PollState::WaitingForPageFetch;
        Step::Await { fetch: Some(self.current_fetched_page_number) }
    }

    /// Takes a parsed page. The first page fixes the page size. A page that is not the
    /// one holding the next artist (which only the first, probing fetch can give) is
    /// dropped and that page is fetched instead; otherwise its artists not yet emitted
    /// are queued and the crawler is ready.
    pub fn on_page_parsed(&mut self, st: &ScraperState, batch: Vec<ArtistUrl>) -> (r: Step)
        requires
            old(self).inv(st),
            old(self)@.poll_state == PollState::WaitingForPageParse,
        ensures
            step_effect(*st, *st, r),
            !(r is Fail) ==> final(self).inv(st),
            batch_matches(old(self)@, batch@, st.next_artist_number as nat) ==> r == Step::Ready
                && final(self)@ == after_install(old(self)@, batch@, st.next_artist_number as nat),
            !batch_matches(old(self)@, batch@, st.next_artist_number as nat) ==> {
                &&& old(self)@.per_page == 0
                &&& match r {
                    Step::Await { fetch: Some(p) } => {
                        &&& p == spec_next_page(
                            st.next_artist_number as nat,
                            0,
                            batch@.len(),
                        )
                        &&& p > old(self)@.current_page
                        &&& final(self)@ == after_start(
                            after_probe(old(self)@, batch@.len()),
                            p as nat,
                        )
                    },
                    Step::Fail(e) => e == CrawlError::OffsetOverflow && st.next_artist_number
                        == usize::MAX,
                    _ => false,
                }
            },
    {
        proof {
            assert(st.names() =~= st.names() + Seq::<Seq<char>>::empty());
        }
        if self.artists_per_page == 0 {
            self.artists_per_page = batch.len();
        }
        let per_page = self.artists_per_page;
        let next = st.next_artist_number;
        if !page_matches_target(next, self.current_fetched_page_number, per_page) {
            self.poll_state = PollState::WaitingForPageFetch;
            let ghost probed = self@;
            match self.trigger_fetch_next_artist_page(st) {
                Ok(Some(p)) => {
                    proof {
                        let ps = self@.pages_fetched;
                        assert forall|i: int, j: int|
                            0 <= i < j < ps.len() implies #[trigger] ps[i] < #[trigger] ps[j] by {
                            if j == ps.len() - 1 && i < j && j > 0 {
                                assert(ps[i] == probed.pages_fetched[i]);
                                if i < ps.len() - 2 {
                                    assert(probed.pages_fetched[i] < probed.pages_fetched[j - 1]);
                                }
                            } else {
                                assert(ps[i] == probed.pages_fetched[i]);
                                assert(ps[j] == probed.pages_fetched[j]);
                            }
                        }
                    }
                    Step::Await { fetch: Some(p) }
                },
                Ok(None) => {
                    proof {
                        assert(false);
                    }
                    Step::Ready
                },
                Err(e) => Step::Fail(e),
            }
        } else {
            let mut queue: VecDeque<ArtistUrl> = VecDeque::new();
            if per_page > 0 {
                let skip = next % per_page;
                if skip < batch.len() {
                    let mut i: usize = skip;
                    while i < batch.len()
                        invariant
                            skip <= i <= batch@.len(),
                            queue@ == batch@.subrange(skip as int, i as int),
                        decreases batch@.len() - i,
                    {
                        let a = &batch[i];
                        queue.push_back(ArtistUrl { name: a.name.clone(), url: a.url.clone() });
                        proof {
                            assert(batch@.subrange(skip as int, i + 1) =~= batch@.subrange(
                                skip as int,
                                i as int,
                            ).push(batch@[i as int]));
                        }
                        i += 1;
                    }
                }
                proof {
                    if batch@.len() >= per_page {
                        lemma_full_page_advances(next as nat, batch@.len(), per_page as nat);
                    }
                }
            }
            self.fetched_artists = queue;
            self.exhausted = per_page == 0 || batch.len() < per_page;
            self.poll_state = PollState::HasArtistsFetched;
            proof {
                assert(self@.queue =~= unemitted(batch@, next as nat, per_page as nat));
            }
            Step::Ready
        }
    }

    /// Starts a fetch of the page that holds the first artist not yet queued,
    /// unless one is in flight or the index is exhausted.
    fn trigger_fetch_next_artist_page(&mut self, st: &ScraperState) -> (r: Result<
        Option<usize>,
        CrawlError,
    >)
        requires
            old(self)@.exhausted ==> !old(self)@.fetch_pending,
        ensures
            (r matches Ok(None)) ==> final(self)@ == old(self)@,
            (r matches Ok(None)) <==> (old(self)@.fetch_pending || old(self)@.exhausted),
            r is Ok <==> (old(self)@.fetch_pending || old(self)@.exhausted || old(self)@.target(
                st.next_artist_number as nat,
            ) < usize::MAX),
            r is Err ==> r == Err::<Option<usize>, CrawlError>(CrawlError::OffsetOverflow),
            match r {
                Ok(Some(p)) => {
                    &&& !old(self)@.fetch_pending && !old(self)@.exhausted
                    &&& p == old(self)@.next_page(st.next_artist_number as nat)
                    &&& final(self)@ == after_start(old(self)@, p as nat)
                },
                _ => true,
            },
    {
        if self.fetch_pending || self.exhausted {
            return Ok(None);
        }
        let queued = self.fetched_artists.len();
        if st.next_artist_number >= usize::MAX - queued {
            return Err(CrawlError::OffsetOverflow);
        }
        let page = next_page_to_fetch(st.next_artist_number, queued, self.artists_per_page);
        self.current_fetched_page_number = page;
        self.fetch_pending = true;
        self.pages_fetched = Ghost(self.pages_fetched@.push(page as nat));
        Ok(Some(page))
    }
}

} // verus!
