use neoplayer::catalog::{
    first_result, track_from, tracks_from_library, tracks_from_search, tracks_from_videos,
    PAGE_SIZE,
};
use neoplayer::{CatalogTrack, Error, LibraryPager, Page, Platform, Track, Uri, YoutubeResult};

fn entry(name: &str, artists: &[&str], uri: Option<&str>) -> CatalogTrack {
    CatalogTrack {
        name: name.to_string(),
        artists: artists.iter().map(|a| a.to_string()).collect(),
        uri: uri.map(|u| u.to_string()),
    }
}

fn is_streamed(track: &Track, name: &str, artist: &str, uri: &str) -> bool {
    track.name() == name
        && track.artist() == artist
        && matches!(track.uri(), Uri::Spotify(id) if id == uri)
}

fn says_no_results<T>(outcome: Result<T, Error>) -> bool {
    matches!(outcome, Err(Error::Other(message)) if message == "Search returned no results.")
}

#[test]
fn complete_entry_gives_a_track_with_its_first_artist() {
    let track = track_from(&entry("Song", &["Main", "Guest"], Some("spotify:track:1"))).unwrap();
    assert!(is_streamed(&track, "Song", "Main", "spotify:track:1"));
    assert_eq!(track.uri().platform(), Platform::Spotify);
    assert!(track_from(&entry("Song", &[], Some("spotify:track:1"))).is_none());
    assert!(track_from(&entry("Song", &["Main"], None)).is_none());
}

#[test]
fn library_passes_over_incomplete_entries() {
    let entries = vec![
        entry("a", &["x"], Some("u1")),
        entry("b", &[], Some("u2")),
        entry("c", &["y"], None),
        entry("d", &["z", "w"], Some("u4")),
    ];
    let tracks = tracks_from_library(&entries);
    assert_eq!(tracks.len(), 2);
    assert!(is_streamed(&tracks[0], "a", "x", "u1"));
    assert!(is_streamed(&tracks[1], "d", "z", "u4"));
    assert!(tracks_from_library(&Vec::new()).is_empty());
}

#[test]
fn search_needs_every_entry_complete() {
    let complete = vec![entry("a", &["x"], Some("u1")), entry("b", &["y"], Some("u2"))];
    let tracks = tracks_from_search(&complete).unwrap();
    assert_eq!(tracks.len(), 2);
    assert!(is_streamed(&tracks[0], "a", "x", "u1"));
    assert!(is_streamed(&tracks[1], "b", "y", "u2"));

    let no_artist = vec![entry("a", &["x"], Some("u1")), entry("b", &[], Some("u2"))];
    assert!(says_no_results(tracks_from_search(&no_artist)));
    let no_uri = vec![entry("a", &["x"], None)];
    assert!(says_no_results(tracks_from_search(&no_uri)));
}

#[test]
fn search_that_found_nothing_is_an_error() {
    assert!(says_no_results(tracks_from_search(&Vec::new())));
}

#[test]
fn videos_become_tracks_without_artist() {
    let videos = vec![
        YoutubeResult { title: "One".to_string(), href: "id1".to_string() },
        YoutubeResult { title: "Two".to_string(), href: "id2".to_string() },
    ];
    let tracks = tracks_from_videos(&videos);
    assert_eq!(tracks.len(), 2);
    assert_eq!(tracks[0].name(), "One");
    assert_eq!(tracks[0].artist(), "");
    assert!(matches!(tracks[0].uri(), Uri::Youtube(id) if id == "id1"));
    assert_eq!(tracks[1].name(), "Two");
    assert!(matches!(tracks[1].uri(), Uri::Youtube(id) if id == "id2"));
}

#[test]
fn first_result_is_the_first_or_an_error() {
    let tracks = tracks_from_search(&vec![
        entry("a", &["x"], Some("u1")),
        entry("b", &["y"], Some("u2")),
    ])
    .unwrap();
    assert!(is_streamed(&first_result(&tracks).unwrap(), "a", "x", "u1"));
    assert!(says_no_results(first_result(&Vec::new())));
}

fn page(names: &[&str], total: u32) -> Option<Page> {
    Some(Page { items: names.iter().map(|n| entry(n, &["x"], Some("u"))).collect(), total })
}

#[test]
fn pager_asks_page_by_page_until_past_the_total() {
    let mut pager = LibraryPager::new();
    assert_eq!(pager.request(), Some((50, 0)));
    pager.receive(page(&["a", "b"], 120));
    assert_eq!(pager.request(), Some((50, 50)));
    pager.receive(page(&["c"], 120));
    assert_eq!(pager.request(), Some((50, 100)));
    pager.receive(page(&["d"], 120));
    assert_eq!(pager.request(), Some((50, 150)));
    assert!(!pager.is_done());
    pager.receive(page(&[], 120));
    assert!(pager.is_done());
    assert_eq!(pager.request(), None);
    pager.receive(page(&["late"], 120));
    let names: Vec<String> = pager.finish().into_iter().map(|t| t.name).collect();
    assert_eq!(names, vec!["a", "b", "c", "d"]);
    assert_eq!(PAGE_SIZE, 50);
}

#[test]
fn pager_goes_on_while_the_offset_equals_the_total() {
    let mut pager = LibraryPager::new();
    pager.receive(page(&[], 0));
    assert_eq!(pager.request(), Some((50, 50)));
    pager.receive(page(&[], 0));
    assert!(pager.is_done());
}

#[test]
fn pager_stops_at_a_failed_request() {
    let mut pager = LibraryPager::new();
    pager.receive(page(&["a"], 500));
    pager.receive(None);
    assert!(pager.is_done());
    assert_eq!(pager.request(), None);
    assert_eq!(pager.finish().len(), 1);
}

#[test]
fn pager_stops_before_the_offset_overflows() {
    let mut pager = LibraryPager::new();
    let mut last = 0;
    while let Some((_, offset)) = pager.request() {
        last = offset;
        pager.receive(page(&[], u32::MAX));
    }
    assert_eq!(last, 4294967250);
    assert!(pager.is_done());
}
