use neoplayer::ui::{cursor_column_behind, QUEUE_MIN_WIDTH};
use neoplayer::{
    Event, InputMode, Intent, Key, Lookup, Platform, PlaybackFlag, Player, Request, StatefulList,
    Track, Ui, Uri,
};

fn track(name: &str) -> Track {
    Track::new(name.to_string(), "artist".to_string(), Uri::Spotify(format!("uri-{}", name)))
}

fn type_line(ui: &mut Ui, line: &str) {
    for c in line.chars() {
        assert!(matches!(ui.on_key(Key::Char(c), PlaybackFlag::Playing), Intent::Nothing));
    }
}

#[test]
fn list_selection_wraps_around() {
    let mut list = StatefulList::with_items(vec!["a", "b", "c"]);
    assert_eq!(list.selected(), None);
    assert!(list.get_selection().is_none());
    list.next();
    assert_eq!(list.selected(), Some(0));
    list.next();
    list.next();
    assert_eq!(list.get_selection(), Some(&"c"));
    list.next();
    assert_eq!(list.selected(), Some(0));
    list.previous();
    assert_eq!(list.selected(), Some(2));
    list.previous();
    assert_eq!(list.get_selection(), Some(&"b"));
}

#[test]
fn previous_without_selection_selects_the_first() {
    let mut list = StatefulList::with_items(vec![1, 2]);
    list.previous();
    assert_eq!(list.selected(), Some(0));
}

#[test]
fn empty_list_has_no_selection() {
    let mut list: StatefulList<u8> = StatefulList::new();
    list.next();
    assert_eq!(list.selected(), None);
    list.previous();
    assert_eq!(list.selected(), None);
    assert!(list.get_selection().is_none());
    assert!(list.items().is_empty());
}

#[test]
fn new_items_keep_the_selection_where_it_fits() {
    let mut list = StatefulList::with_items(vec![1, 2, 3]);
    list.next();
    list.next();
    list.set_items(vec![7, 8]);
    assert_eq!(list.get_selection(), Some(&8));
    list.set_items(vec![9]);
    assert_eq!(list.selected(), None);
    assert_eq!(list.items(), &vec![9]);
}

#[test]
fn ui_starts_in_normal_mode_with_the_queue_shown() {
    let ui = Ui::new();
    assert_eq!(ui.input_mode(), InputMode::Normal);
    assert_eq!(ui.input(), "");
    assert!(ui.toggle_queue());
    assert_eq!(ui.source(), Platform::Spotify);
    assert!(ui.results().items().is_empty());
}

#[test]
fn typing_edits_the_input_box() {
    let mut ui = Ui::new();
    assert!(matches!(ui.on_key(Key::Char('h'), PlaybackFlag::Playing), Intent::Nothing));
    assert_eq!(ui.input_mode(), InputMode::Editing);
    type_line(&mut ui, "he\u{e9}");
    assert_eq!(ui.input(), "he\u{e9}");
    assert!(matches!(ui.on_key(Key::Backspace, PlaybackFlag::Playing), Intent::Nothing));
    assert_eq!(ui.input(), "he");
    ui.on_key(Key::Backspace, PlaybackFlag::Playing);
    ui.on_key(Key::Backspace, PlaybackFlag::Playing);
    ui.on_key(Key::Backspace, PlaybackFlag::Playing);
    assert_eq!(ui.input(), "");
    type_line(&mut ui, "q.,");
    assert_eq!(ui.input(), "q.,");
    assert!(ui.toggle_queue());
    assert!(matches!(ui.on_key(Key::Esc, PlaybackFlag::Playing), Intent::Nothing));
    assert_eq!(ui.input_mode(), InputMode::Normal);
    assert_eq!(ui.input(), "q.,");
}

#[test]
fn enter_runs_the_command_and_clears_the_box() {
    let mut ui = Ui::new();
    ui.on_key(Key::Char('h'), PlaybackFlag::Playing);
    type_line(&mut ui, "search daft punk");
    let intent = ui.on_key(Key::Char('\n'), PlaybackFlag::Playing);
    assert!(matches!(intent, Intent::Lookup(Lookup::Search(q)) if q == "daft punk"));
    assert_eq!(ui.input(), "");
    assert_eq!(ui.input_mode(), InputMode::Normal);

    ui.on_key(Key::Char('h'), PlaybackFlag::Playing);
    type_line(&mut ui, "pause");
    assert!(matches!(
        ui.on_key(Key::Char('\n'), PlaybackFlag::Paused),
        Intent::Transport(Request::Resume)
    ));
    ui.on_key(Key::Char('h'), PlaybackFlag::Playing);
    type_line(&mut ui, "nonsense");
    assert!(matches!(ui.on_key(Key::Char('\n'), PlaybackFlag::Paused), Intent::Nothing));
    assert_eq!(ui.input_mode(), InputMode::Normal);
}

#[test]
fn normal_mode_keys() {
    let mut ui = Ui::new();
    assert!(matches!(ui.on_key(Key::Char('e'), PlaybackFlag::Playing), Intent::Quit));
    assert!(matches!(
        ui.on_key(Key::Char(','), PlaybackFlag::Playing),
        Intent::Transport(Request::Rewind)
    ));
    assert!(matches!(
        ui.on_key(Key::Char('.'), PlaybackFlag::Playing),
        Intent::Transport(Request::Advance)
    ));
    assert!(matches!(ui.on_key(Key::Char('q'), PlaybackFlag::Playing), Intent::Nothing));
    assert!(!ui.toggle_queue());
    ui.on_key(Key::Char('q'), PlaybackFlag::Playing);
    assert!(ui.toggle_queue());
    assert!(matches!(ui.on_key(Key::Char('x'), PlaybackFlag::Playing), Intent::Nothing));
    assert!(matches!(ui.on_key(Key::Other, PlaybackFlag::Playing), Intent::Nothing));
    assert!(matches!(ui.on_key(Key::Esc, PlaybackFlag::Playing), Intent::Nothing));
    assert!(matches!(ui.on_key(Key::Backspace, PlaybackFlag::Playing), Intent::Nothing));
    assert_eq!(ui.input_mode(), InputMode::Normal);
    assert_eq!(ui.input(), "");
}

#[test]
fn selection_is_played_or_queued() {
    let mut ui = Ui::new();
    assert!(matches!(ui.on_key(Key::Char('\n'), PlaybackFlag::Playing), Intent::Nothing));
    assert!(matches!(ui.on_key(Key::Char('a'), PlaybackFlag::Playing), Intent::Nothing));
    ui.show_results(vec![track("one"), track("two")], Platform::Youtube);
    assert_eq!(ui.source(), Platform::Youtube);
    assert!(matches!(ui.on_key(Key::Char('\n'), PlaybackFlag::Playing), Intent::Nothing));
    ui.on_key(Key::Down, PlaybackFlag::Playing);
    ui.on_key(Key::Down, PlaybackFlag::Playing);
    assert_eq!(ui.results().selected(), Some(1));
    let intent = ui.on_key(Key::Char('\n'), PlaybackFlag::Playing);
    assert!(matches!(intent, Intent::Transport(Request::Play(t)) if t.name() == "two"));
    ui.on_key(Key::Up, PlaybackFlag::Playing);
    let intent = ui.on_key(Key::Char('a'), PlaybackFlag::Playing);
    assert!(matches!(intent, Intent::Enqueue(t) if t.name() == "one" && t.artist() == "artist"));
    ui.show_results(Vec::new(), Platform::Spotify);
    assert!(matches!(ui.on_key(Key::Char('a'), PlaybackFlag::Playing), Intent::Nothing));
}

#[test]
fn events_become_intents() {
    let mut ui = Ui::new();
    let mut player = Player::new();
    assert!(matches!(ui.handle(Event::TrackEnded, &player, false), Intent::Transport(Request::TrackEnded)));
    assert!(matches!(ui.handle(Event::PleasePause, &player, false), Intent::Transport(Request::Pause)));
    assert!(matches!(ui.handle(Event::PleaseResume, &player, false), Intent::Transport(Request::Resume)));
    let intent = ui.handle(Event::UpdateNP(Uri::Spotify("id".to_string())), &player, false);
    assert!(matches!(intent, Intent::Resolve(Uri::Spotify(id)) if id == "id"));
    assert!(matches!(ui.handle(Event::Input(Key::Char('e')), &player, true), Intent::Quit));

    assert!(matches!(ui.handle(Event::Tick, &player, true), Intent::Nothing));
    let video = Track::new("v".to_string(), String::new(), Uri::Youtube("id".to_string()));
    assert!(player.play(video, Ok(())).is_ok());
    assert!(matches!(ui.handle(Event::Tick, &player, false), Intent::Nothing));
    assert!(matches!(ui.handle(Event::Tick, &player, true), Intent::Transport(Request::TrackEnded)));
    assert!(player.play(track("streamed"), Ok(())).is_ok());
    assert!(matches!(ui.handle(Event::Tick, &player, true), Intent::Nothing));
}

#[test]
fn pause_key_command_follows_the_player() {
    let mut ui = Ui::new();
    let mut player = Player::new();
    assert!(player.play(track("song"), Ok(())).is_ok());
    ui.handle(Event::Input(Key::Char('h')), &player, false);
    for c in "pause".chars() {
        ui.handle(Event::Input(Key::Char(c)), &player, false);
    }
    let intent = ui.handle(Event::Input(Key::Char('\n')), &player, false);
    assert!(matches!(intent, Intent::Transport(Request::Pause)));
}

#[test]
fn queue_is_shown_on_wide_terminals_only() {
    let mut ui = Ui::new();
    assert_eq!(QUEUE_MIN_WIDTH, 90);
    assert!(ui.queue_shown(91));
    assert!(!ui.queue_shown(90));
    assert!(!ui.queue_shown(0));
    ui.on_key(Key::Char('q'), PlaybackFlag::Playing);
    assert!(!ui.queue_shown(200));
}

#[test]
fn cursor_stands_behind_the_text() {
    assert_eq!(cursor_column_behind(2, 0), Some(3));
    assert_eq!(cursor_column_behind(2, 5), Some(8));
    assert_eq!(cursor_column_behind(0, 65534), Some(65535));
    assert_eq!(cursor_column_behind(0, 65535), None);
    assert_eq!(cursor_column_behind(1, 65534), None);
    assert_eq!(cursor_column_behind(65535, 0), None);
    assert_eq!(cursor_column_behind(65534, 0), Some(65535));
    assert_eq!(cursor_column_behind(10, usize::MAX), None);
}

#[test]
fn cursor_counts_columns_not_characters() {
    let mut ui = Ui::new();
    assert_eq!(ui.cursor_column(4), Some(5));
    ui.on_key(Key::Char('h'), PlaybackFlag::Playing);
    type_line(&mut ui, "ab");
    assert_eq!(ui.cursor_column(4), Some(7));
    type_line(&mut ui, "\u{65e5}\u{672c}");
    assert_eq!(ui.cursor_column(4), Some(11));
}
