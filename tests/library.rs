use bcz::model::{ArtistDiscography, ArtistInfo, ArtistUrl, Release, ReleaseUrl, Track, NEVER_SCRAPED};
use bcz::releases::{
    classify_purchase_option, classify_release, discography_page_url, release_from_page,
    DiscographyError, PurchaseOption, ReleaseKind, Releases,
};
use bcz::page::{artist_rows, release_rows, PageError, RawRow};
use bcz::state::{CrawlError, ScraperState};

fn artist(name: &str, url: &str) -> ArtistUrl {
    ArtistUrl { name: name.to_string(), url: url.to_string() }
}

fn labels(ls: &[&str]) -> Vec<String> {
    ls.iter().map(|l| l.to_string()).collect()
}

#[test]
fn new_artist_is_recorded_once() {
    let mut st = ScraperState::new();
    assert_eq!(st.new_artist_from_url(artist("a", "https://a.example.com")), Ok(()));
    assert_eq!(
        st.new_artist_from_url(artist("a", "https://other.example.com")),
        Err(CrawlError::DuplicateArtist)
    );
    assert_eq!(st.artists.len(), 1);
    assert_eq!(st.artists[0].url, "https://a.example.com");
    assert_eq!(st.artists[0].last_scrape_completed_on, NEVER_SCRAPED);
    assert!(st.contains_artist(&"a".to_string()));
    assert!(!st.contains_artist(&"b".to_string()));
}

#[test]
fn emission_counts_and_records() {
    let mut st = ScraperState::new();
    assert_eq!(st.record_emission(artist("a", "u")), Ok(()));
    assert_eq!(st.record_emission(artist("b", "v")), Ok(()));
    assert_eq!(st.record_emission(artist("a", "w")), Err(CrawlError::DuplicateArtist));
    assert_eq!(st.next_artist_number, 2);
    assert_eq!(st.artists.len(), 2);
}

#[test]
fn fresh_artist_info() {
    let info = ArtistInfo::from_url(artist("n", "https://n.example.com"));
    assert_eq!(info.name, "n");
    assert_eq!(info.url, "https://n.example.com");
    assert!(info.discography.albums.is_empty());
    assert!(info.discography.eps.is_empty());
    assert!(info.discography.singles.is_empty());
    assert_eq!(info.last_scrape_completed_on, 0);
}

#[test]
fn purchase_option_labels() {
    assert_eq!(classify_purchase_option(&"Digital Track".to_string()), PurchaseOption::DigitalTrack);
    assert_eq!(classify_purchase_option(&"Digital Album".to_string()), PurchaseOption::DigitalAlbum);
    assert_eq!(classify_purchase_option(&"CD".to_string()), PurchaseOption::Cd);
    assert_eq!(classify_purchase_option(&"Cassette Tape".to_string()), PurchaseOption::CassetteTape);
    assert_eq!(classify_purchase_option(&"12\" Vinyl LP".to_string()), PurchaseOption::Vinyl);
    assert_eq!(classify_purchase_option(&"Limited vinyl".to_string()), PurchaseOption::Vinyl);
    assert_eq!(classify_purchase_option(&"VINYL".to_string()), PurchaseOption::Other);
    assert_eq!(classify_purchase_option(&"T-Shirt/Apparel".to_string()), PurchaseOption::Other);
    assert_eq!(classify_purchase_option(&"".to_string()), PurchaseOption::Other);
}

#[test]
fn release_kinds() {
    assert_eq!(classify_release(&labels(&["CD", "Digital Track"])), ReleaseKind::Single);
    assert_eq!(classify_release(&labels(&["Digital Album", "Vinyl LP"])), ReleaseKind::Unclassified);
    assert_eq!(classify_release(&labels(&[])), ReleaseKind::Unclassified);
}

#[test]
fn single_from_release_page() {
    let r = release_from_page("Song".to_string(), &labels(&["Digital Track"]), "3:21".to_string());
    match r {
        Some(Release::Single { name, tracks }) => {
            assert_eq!(name, "Song");
            assert_eq!(tracks.len(), 1);
            assert_eq!(tracks[0].index, 1);
            assert_eq!(tracks[0].name, "Song");
            assert_eq!(tracks[0].duration, "3:21");
        }
        other => panic!("expected a single, got {:?}", other),
    }
    assert!(release_from_page("LP".to_string(), &labels(&["Digital Album"]), "".to_string()).is_none());
}

#[test]
fn discography_files_by_kind() {
    let mut d = ArtistDiscography::new();
    let track = Track { index: 1, name: "t".to_string(), duration: "1:00".to_string() };
    d.add_release(Release::Single { name: "s".to_string(), tracks: vec![track] });
    d.add_release(Release::Album { name: "a".to_string(), tracks: vec![] });
    d.add_release(Release::EP { name: "e".to_string(), tracks: vec![] });
    d.add_release(Release::Album { name: "b".to_string(), tracks: vec![] });
    assert_eq!(d.singles.len(), 1);
    assert_eq!(d.eps.len(), 1);
    assert_eq!(d.albums.len(), 2);
    assert!(matches!(&d.albums[1], Release::Album { name, .. } if name == "b"));
}

#[test]
fn releases_in_page_order() {
    let urls = vec![
        ReleaseUrl { name: "one".to_string(), url: "u1".to_string() },
        ReleaseUrl { name: "two".to_string(), url: "u2".to_string() },
    ];
    let mut rs = Releases::new(urls);
    assert_eq!(rs.next().map(|r| r.name), Some("one".to_string()));
    assert_eq!(rs.next().map(|r| r.url), Some("u2".to_string()));
    assert!(rs.next().is_none());
    assert!(rs.next().is_none());
    rs.restart();
    assert_eq!(rs.next().map(|r| r.name), Some("one".to_string()));
}

#[test]
fn discography_url_replaces_path() {
    let a = artist("x", "https://x.bandcamp.com/album/foo?bar=1");
    assert_eq!(discography_page_url(&a), Ok("https://x.bandcamp.com/music?bar=1".to_string()));
    let b = artist("y", "https://y.bandcamp.com");
    assert_eq!(discography_page_url(&b), Ok("https://y.bandcamp.com/music".to_string()));
    let c = artist("z", "not a url");
    assert_eq!(discography_page_url(&c), Err(DiscographyError::InvalidArtistUrl));
}

fn raw(href: Option<&str>, name: Option<&str>) -> RawRow {
    RawRow { href: href.map(|s| s.to_string()), name: name.map(|s| s.to_string()) }
}

#[test]
fn index_rows_in_page_order() {
    let rows = vec![raw(Some("https://a.example.com"), Some("A")), raw(Some("https://b.example.com"), Some("B"))];
    let artists = artist_rows(rows).expect("complete rows");
    assert_eq!(artists.len(), 2);
    assert_eq!(artists[0].name, "A");
    assert_eq!(artists[0].url, "https://a.example.com");
    assert_eq!(artists[1].name, "B");
    assert!(artist_rows(vec![]).expect("no rows").is_empty());
}

#[test]
fn incomplete_rows_are_reported() {
    let rows = vec![raw(Some("u0"), Some("n0")), raw(Some("u1"), None), raw(None, None)];
    assert_eq!(artist_rows(rows).err(), Some(PageError::MissingName(1)));
    let rows = vec![raw(None, Some("n0")), raw(Some("u1"), None)];
    assert_eq!(release_rows(rows).err(), Some(PageError::MissingLink(0)));
    let rows = vec![raw(Some("u0"), Some("n0"))];
    let releases = release_rows(rows).expect("complete rows");
    assert_eq!(releases[0].name, "n0");
    assert_eq!(releases[0].url, "u0");
}
