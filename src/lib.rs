use vstd::prelude::*;

/// The index crawler: a state machine that serves artists one at a time and tells its
/// driver which page to fetch, when to wait and when to parse.
pub mod crawler;
/// Which index page holds a given offset.
pub mod cursor;
/// What holds over whole runs of the crawler.
pub mod laws;
/// The records the crawl produces.
pub mod model;
/// Listing rows as read from page markup, checked into entity references.
pub mod page;
/// Release pages and discographies: purchase options, release kinds, drill-down.
pub mod releases;
/// The persisted crawl state: the emission counter and the known artists.
pub mod state;

verus! {

} // verus!
