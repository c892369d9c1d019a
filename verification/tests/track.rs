use neoplayer::track::now_playing_label;
use neoplayer::{Platform, Track, Uri};

#[test]
fn track_keeps_what_it_was_made_of() {
    let track = Track::new(
        "Title".to_string(),
        "Artist".to_string(),
        Uri::Spotify("spotify:track:abc".to_string()),
    );
    assert_eq!(track.name(), "Title");
    assert_eq!(track.artist(), "Artist");
    assert!(matches!(track.uri(), Uri::Spotify(id) if id == "spotify:track:abc"));
    assert_eq!(track.uri().id(), "spotify:track:abc");
    assert_eq!(track.uri().platform(), Platform::Spotify);
    assert_eq!(Uri::Youtube("v".to_string()).platform(), Platform::Youtube);
    assert_eq!(Uri::Youtube("v".to_string()).id(), "v");
}

#[test]
fn track_is_shown_as_title_dash_artist() {
    let track =
        Track::new("Title".to_string(), "Artist".to_string(), Uri::Youtube("v".to_string()));
    assert_eq!(track.display(), "Title - Artist");
    let bare = Track::new("Video".to_string(), String::new(), Uri::Youtube("v".to_string()));
    assert_eq!(bare.display(), "Video - ");
}

#[test]
fn copies_are_the_same_track() {
    let track = Track::new("T".to_string(), "A".to_string(), Uri::Youtube("v".to_string()));
    let copy = track.clone();
    assert!(track.same(&copy));
    assert!(copy.uri().same(track.uri()));
    let other_name = Track::new("U".to_string(), "A".to_string(), Uri::Youtube("v".to_string()));
    let other_artist = Track::new("T".to_string(), "B".to_string(), Uri::Youtube("v".to_string()));
    let other_id = Track::new("T".to_string(), "A".to_string(), Uri::Youtube("w".to_string()));
    let other_tag = Track::new("T".to_string(), "A".to_string(), Uri::Spotify("v".to_string()));
    assert!(!track.same(&other_name));
    assert!(!track.same(&other_artist));
    assert!(!track.same(&other_id));
    assert!(!track.same(&other_tag));
}

#[test]
fn label_joins_the_artists_with_commas() {
    let artists = vec!["Daft Punk".to_string(), "Pharrell".to_string(), "Nile".to_string()];
    assert_eq!(now_playing_label(&artists, "Get Lucky"), "Daft Punk, Pharrell, Nile - Get Lucky");
    assert_eq!(now_playing_label(&vec!["Solo".to_string()], "Song"), "Solo - Song");
    assert_eq!(now_playing_label(&Vec::new(), "Song"), " - Song");
}
