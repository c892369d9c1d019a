use neoplayer::{
    Error, Mirror, MirrorPlayback, Platform, PlaybackFlag, Player, Snapshot, Track, Uri,
};

fn song(name: &str, artist: &str) -> Track {
    Track::new(name.to_string(), artist.to_string(), Uri::Spotify(format!("uri-{}", name)))
}

fn snapshot(current: Option<Track>, flag: PlaybackFlag) -> Snapshot {
    Snapshot { current, flag, active: Platform::Spotify }
}

#[test]
fn mirror_is_told_when_the_flag_changes() {
    let mirror = Mirror::new(true);
    let before = snapshot(Some(song("a", "x")), PlaybackFlag::Playing);
    let after = snapshot(Some(song("a", "x")), PlaybackFlag::Paused);
    let update = mirror.plan(&before, &after).unwrap();
    assert_eq!(update.playback, MirrorPlayback::Paused);
    assert_eq!(update.metadata, Some(("a".to_string(), "x".to_string())));
    let update = mirror.plan(&after, &before).unwrap();
    assert_eq!(update.playback, MirrorPlayback::Playing);
}

#[test]
fn mirror_is_told_when_the_current_track_changes() {
    let mirror = Mirror::new(true);
    let before = snapshot(Some(song("a", "x")), PlaybackFlag::Playing);
    let after = snapshot(Some(song("b", "y")), PlaybackFlag::Playing);
    let update = mirror.plan(&before, &after).unwrap();
    assert_eq!(update.playback, MirrorPlayback::Playing);
    assert_eq!(update.metadata, Some(("b".to_string(), "y".to_string())));
    let other_artist = snapshot(Some(song("a", "z")), PlaybackFlag::Playing);
    assert!(mirror.plan(&before, &other_artist).is_some());
}

#[test]
fn mirror_shows_stopped_when_nothing_is_current() {
    let mirror = Mirror::new(true);
    let before = snapshot(Some(song("a", "x")), PlaybackFlag::Playing);
    let after = snapshot(None, PlaybackFlag::Playing);
    let update = mirror.plan(&before, &after).unwrap();
    assert_eq!(update.playback, MirrorPlayback::Stopped);
    assert_eq!(update.metadata, None);
    assert_eq!(after.playback(), MirrorPlayback::Stopped);
}

#[test]
fn mirror_is_not_told_when_nothing_shown_changed() {
    let mirror = Mirror::new(true);
    let before = snapshot(Some(song("a", "x")), PlaybackFlag::Playing);
    let mut after = snapshot(Some(song("a", "x")), PlaybackFlag::Playing);
    after.active = Platform::Youtube;
    assert!(mirror.plan(&before, &after).is_none());
    let idle = snapshot(None, PlaybackFlag::Paused);
    let still_idle = snapshot(None, PlaybackFlag::Paused);
    assert!(mirror.plan(&idle, &still_idle).is_none());
}

#[test]
fn absent_mirror_is_told_nothing() {
    let mirror = Mirror::new(false);
    let before = snapshot(None, PlaybackFlag::Paused);
    let after = snapshot(Some(song("a", "x")), PlaybackFlag::Playing);
    assert!(mirror.plan(&before, &after).is_none());
}

#[test]
fn failed_sync_is_reported_and_leaves_the_player() {
    let mut player = Player::new();
    let before = player.snapshot();
    assert!(player.play(song("a", "x"), Ok(())).is_ok());
    let after = player.snapshot();
    assert!(Mirror::new(true).plan(&before, &after).is_some());
    assert!(matches!(Mirror::report(false), Some(Error::ControllerSyncFailed)));
    assert!(Mirror::report(true).is_none());
    assert_eq!(player.current().unwrap().name(), "a");
    assert_eq!(player.flag(), PlaybackFlag::Playing);
}

#[test]
fn enqueue_gives_the_mirror_nothing_to_show() {
    let mut player = Player::new();
    assert!(player.play(song("a", "x"), Ok(())).is_ok());
    let before = player.snapshot();
    player.enqueue(song("b", "y"));
    assert!(Mirror::new(true).plan(&before, &player.snapshot()).is_none());
}
