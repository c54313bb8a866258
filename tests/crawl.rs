use bcz::crawler::{Artists, FetchOutcome, Step, RETRY_DELAY_MILLIS};
use bcz::cursor::{next_page_to_fetch, page_matches_target};
use bcz::model::ArtistUrl;
use bcz::state::{CrawlError, ScraperState};

fn artist(name: &str) -> ArtistUrl {
    ArtistUrl {
        name: name.to_string(),
        url: format!("https://{}.example.com", name),
    }
}

/// A stand-in for the artist index: page `p` (from 1) is `pages[p - 1]`, empty past the end.
struct StubIndex {
    pages: Vec<Vec<&'static str>>,
    /// Pages whose first fetch fails softly.
    flaky: Vec<usize>,
    /// Pages whose fetches cannot reach the source.
    unreachable: Vec<usize>,
    fetches: Vec<usize>,
    sleeps: Vec<u64>,
    in_flight: Option<usize>,
    last_fetched: usize,
}

impl StubIndex {
    fn new(pages: Vec<Vec<&'static str>>) -> Self {
        StubIndex {
            pages,
            flaky: vec![],
            unreachable: vec![],
            fetches: vec![],
            sleeps: vec![],
            in_flight: None,
            last_fetched: 0,
        }
    }

    fn outcome(&mut self, page: usize) -> FetchOutcome {
        if self.unreachable.contains(&page) {
            FetchOutcome::TransportFailure
        } else if let Some(pos) = self.flaky.iter().position(|p| *p == page) {
            self.flaky.remove(pos);
            FetchOutcome::SoftFailure
        } else {
            FetchOutcome::Fetched
        }
    }

    fn page(&self, page: usize) -> Vec<ArtistUrl> {
        self.pages.get(page - 1).map(|p| p.iter().map(|n| artist(n)).collect()).unwrap_or_default()
    }
}

/// Drives the crawler for up to `pulls` artists; returns the names handed out and how
/// the run ended (`None` when all pulls were served).
fn run(
    crawler: &mut Artists,
    st: &mut ScraperState,
    index: &mut StubIndex,
    pulls: usize,
) -> (Vec<String>, Option<Step>) {
    let mut names = Vec::new();
    for _ in 0..pulls {
        let mut step = crawler.pull(st);
        loop {
            match step {
                Step::Emit { artist, fetch } => {
                    if let Some(p) = fetch {
                        index.fetches.push(p);
                        index.in_flight = Some(p);
                    }
                    names.push(artist.name);
                    break;
                }
                Step::Await { fetch } => {
                    if let Some(p) = fetch {
                        index.fetches.push(p);
                        index.in_flight = Some(p);
                    }
                    let p = index.in_flight.take().expect("a fetch is in flight");
                    index.last_fetched = p;
                    let outcome = index.outcome(p);
                    if outcome == FetchOutcome::TransportFailure {
                        index.in_flight = Some(p);
                    }
                    step = crawler.on_fetch_done(st, outcome);
                }
                Step::Parse => {
                    let batch = index.page(index.last_fetched);
                    step = crawler.on_page_parsed(st, batch);
                }
                Step::Sleep { millis } => {
                    index.sleeps.push(millis);
                    step = crawler.on_sleep_done(st);
                }
                Step::Ready => {
                    step = crawler.pull(st);
                }
                Step::Done | Step::Fail(_) => return (names, Some(step)),
            }
        }
    }
    (names, None)
}

fn ten_in_pages_of_four() -> StubIndex {
    StubIndex::new(vec![vec!["a", "b", "c", "d"], vec!["e", "f", "g", "h"], vec!["i", "j"]])
}

#[test]
fn it_works() {
    let result = 2 + 2;
    assert_eq!(result, 4);
}

#[test]
fn ten_artists_over_three_pages() {
    let mut index = ten_in_pages_of_four();
    let mut st = ScraperState::new();
    let mut crawler = Artists::new();
    let (names, end) = run(&mut crawler, &mut st, &mut index, 10);
    assert_eq!(names, vec!["a", "b", "c", "d", "e", "f", "g", "h", "i", "j"]);
    assert!(end.is_none());
    assert_eq!(st.next_artist_number, 10);
    assert_eq!(index.fetches, vec![1, 2, 3]);
    assert!(index.sleeps.is_empty());
}

#[test]
fn soft_failure_is_retried_once() {
    let mut index = ten_in_pages_of_four();
    index.flaky = vec![2];
    let mut st = ScraperState::new();
    let mut crawler = Artists::new();
    let (names, end) = run(&mut crawler, &mut st, &mut index, 10);
    assert_eq!(names, vec!["a", "b", "c", "d", "e", "f", "g", "h", "i", "j"]);
    assert!(end.is_none());
    assert_eq!(index.sleeps, vec![RETRY_DELAY_MILLIS]);
    assert_eq!(RETRY_DELAY_MILLIS, 100);
    assert_eq!(index.fetches, vec![1, 2, 2, 3]);
    assert_eq!(st.next_artist_number, 10);
}

#[test]
fn index_ends_after_short_page() {
    let mut index = ten_in_pages_of_four();
    let mut st = ScraperState::new();
    let mut crawler = Artists::new();
    let (names, end) = run(&mut crawler, &mut st, &mut index, 20);
    assert_eq!(names.len(), 10);
    assert!(matches!(end, Some(Step::Done)));
    assert_eq!(index.fetches, vec![1, 2, 3]);
}

#[test]
fn full_last_page_ends_on_empty_page() {
    let mut index = StubIndex::new(vec![vec!["a", "b"], vec!["c", "d"]]);
    let mut st = ScraperState::new();
    let mut crawler = Artists::new();
    let (names, end) = run(&mut crawler, &mut st, &mut index, 10);
    assert_eq!(names, vec!["a", "b", "c", "d"]);
    assert!(matches!(end, Some(Step::Done)));
    assert_eq!(index.fetches, vec![1, 2, 3]);
}

#[test]
fn empty_index_is_done() {
    let mut index = StubIndex::new(vec![]);
    let mut st = ScraperState::new();
    let mut crawler = Artists::new();
    let (names, end) = run(&mut crawler, &mut st, &mut index, 3);
    assert!(names.is_empty());
    assert!(matches!(end, Some(Step::Done)));
    assert_eq!(st.next_artist_number, 0);
    assert_eq!(index.fetches, vec![1]);
}

#[test]
fn repeated_name_is_refused() {
    let mut index = StubIndex::new(vec![vec!["a", "b", "a"]]);
    let mut st = ScraperState::new();
    let mut crawler = Artists::new();
    let (names, end) = run(&mut crawler, &mut st, &mut index, 3);
    assert_eq!(names, vec!["a", "b"]);
    assert!(matches!(end, Some(Step::Fail(CrawlError::DuplicateArtist))));
    assert_eq!(st.next_artist_number, 2);
    assert_eq!(st.artists.len(), 2);
}

#[test]
fn unreachable_source_fails() {
    let mut index = ten_in_pages_of_four();
    index.unreachable = vec![1];
    let mut st = ScraperState::new();
    let mut crawler = Artists::new();
    let (names, end) = run(&mut crawler, &mut st, &mut index, 1);
    assert!(names.is_empty());
    assert!(matches!(end, Some(Step::Fail(CrawlError::TransportFailure))));
}

#[test]
fn resumed_crawl_probes_then_fetches_the_right_page() {
    let mut index = ten_in_pages_of_four();
    let mut st = ScraperState::new();
    for n in ["a", "b", "c", "d", "e", "f"] {
        assert_eq!(st.record_emission(artist(n)), Ok(()));
    }
    let mut crawler = Artists::new();
    let (names, end) = run(&mut crawler, &mut st, &mut index, 4);
    assert_eq!(names, vec!["g", "h", "i", "j"]);
    assert!(end.is_none());
    assert_eq!(index.fetches, vec![1, 2, 3]);
    assert_eq!(st.next_artist_number, 10);
}

#[test]
fn offset_counts_pulls() {
    let mut index = ten_in_pages_of_four();
    let mut st = ScraperState::new();
    let mut crawler = Artists::new();
    let (first, _) = run(&mut crawler, &mut st, &mut index, 3);
    assert_eq!(st.next_artist_number, 3);
    let (second, _) = run(&mut crawler, &mut st, &mut index, 4);
    assert_eq!(st.next_artist_number, 7);
    assert_eq!(first.len() + second.len(), 7);
    let known: Vec<&str> = st.artists.iter().map(|a| a.name.as_str()).collect();
    assert_eq!(known, vec!["a", "b", "c", "d", "e", "f", "g"]);
}

#[test]
fn cursor_pages() {
    assert_eq!(next_page_to_fetch(0, 0, 0), 1);
    assert_eq!(next_page_to_fetch(17, 3, 0), 1);
    assert_eq!(next_page_to_fetch(0, 4, 4), 2);
    assert_eq!(next_page_to_fetch(5, 2, 4), 2);
    assert_eq!(next_page_to_fetch(6, 2, 4), 3);
    assert!(page_matches_target(0, 1, 0));
    assert!(!page_matches_target(0, 2, 0));
    assert!(page_matches_target(6, 2, 4));
    assert!(!page_matches_target(6, 1, 4));
    assert!(!page_matches_target(6, 0, 4));
}

#[test]
fn no_second_fetch_while_one_is_in_flight() {
    let mut st = ScraperState::new();
    let mut crawler = Artists::new();
    assert!(matches!(crawler.pull(&mut st), Step::Await { fetch: Some(1) }));
    assert!(matches!(crawler.on_fetch_done(&st, FetchOutcome::Fetched), Step::Parse));
    let batch = vec![artist("a"), artist("b"), artist("c"), artist("d")];
    assert!(matches!(crawler.on_page_parsed(&st, batch), Step::Ready));
    match crawler.pull(&mut st) {
        Step::Emit { artist, fetch } => {
            assert_eq!(artist.name, "a");
            assert_eq!(fetch, Some(2));
        }
        other => panic!("unexpected step {:?}", other),
    }
    for expected in ["b", "c", "d"] {
        match crawler.pull(&mut st) {
            Step::Emit { artist, fetch } => {
                assert_eq!(artist.name, expected);
                assert_eq!(fetch, None);
            }
            other => panic!("unexpected step {:?}", other),
        }
    }
    assert!(matches!(crawler.pull(&mut st), Step::Await { fetch: None }));
}
