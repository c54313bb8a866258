use vstd::prelude::*;

verus! {

/// A reference to an artist found on the artist index: display name and link.
#[derive(Clone, Debug)]
pub struct ArtistUrl {
    pub name: String,
    pub url: String,
}

/// A reference to a release found on an artist's discography page.
#[derive(Clone, Debug)]
pub struct ReleaseUrl {
    pub name: String,
    pub url: String,
}

/// One track of a release; `index` is its 1-based position.
#[derive(Clone, Debug)]
pub struct Track {
    pub index: usize,
    pub name: String,
    pub duration: String,
}

/// A release, tagged with its kind.
#[derive(Clone, Debug)]
pub enum Release {
    Single { name: String, tracks: Vec<Track> },
    Album { name: String, tracks: Vec<Track> },
    EP { name: String, tracks: Vec<Track> },
}

/// An artist's releases, partitioned by kind.
#[derive(Clone, Debug)]
pub struct ArtistDiscography {
    pub albums: Vec<Release>,
    pub eps: Vec<Release>,
    pub singles: Vec<Release>,
}

impl ArtistDiscography {
    pub open spec fn is_empty(&self) -> bool {
        self.albums@.len() == 0 && self.eps@.len() == 0 && self.singles@.len() == 0
    }

    /// A discography with no releases.
    pub fn new() -> (r: ArtistDiscography)
        ensures
            r.is_empty(),
    {
        ArtistDiscography { albums: Vec::new(), eps: Vec::new(), singles: Vec::new() }
    }
}

impl Default for ArtistDiscography {
    fn default() -> (r: ArtistDiscography)
        ensures
            r.is_empty(),
    {
        ArtistDiscography::new()
    }
}

/// Timestamp value (milliseconds since the Unix epoch) meaning "never fully scraped".
pub const NEVER_SCRAPED: i64 = 0;

/// What the crawl knows of an artist it has emitted.
#[derive(Clone, Debug)]
pub struct ArtistInfo {
    pub name: String,
    pub url: String,
    pub discography: ArtistDiscography,
    /// Milliseconds since the Unix epoch; `NEVER_SCRAPED` until a scrape completes.
    pub last_scrape_completed_on: i64,
}

impl ArtistInfo {
    /// The record of a freshly discovered artist: empty discography, never scraped.
    pub fn from_url(artist_url: ArtistUrl) -> (r: ArtistInfo)
        ensures
            r.name@ == artist_url.name@,
            r.url@ == artist_url.url@,
            r.discography.is_empty(),
            r.last_scrape_completed_on == NEVER_SCRAPED,
    {
        ArtistInfo {
            name: artist_url.name,
            url: artist_url.url,
            discography: ArtistDiscography::new(),
            last_scrape_completed_on: NEVER_SCRAPED,
        }
    }
}

} // verus!
