use neoplayer::{Command, Intent, Lookup, PlaybackFlag, Request};
use neoplayer::ui::intent_for_command;

#[test]
fn reads_each_command() {
    assert!(matches!(Command::parse("search daft punk"), Command::Search(q) if q == "daft punk"));
    assert!(matches!(Command::parse("play one more time"), Command::Play(q) if q == "one more time"));
    assert!(matches!(Command::parse("library"), Command::Library));
    assert!(matches!(Command::parse("pause"), Command::Pause));
    assert!(matches!(Command::parse("ytsearch cat videos"), Command::YTSearch(q) if q == "cat videos"));
}

#[test]
fn other_words_are_no_command() {
    assert!(matches!(Command::parse(""), Command::Unknown));
    assert!(matches!(Command::parse("stop"), Command::Unknown));
    assert!(matches!(Command::parse("Search x"), Command::Unknown));
    assert!(matches!(Command::parse(" search x"), Command::Unknown));
    assert!(matches!(Command::parse("searchx"), Command::Unknown));
}

#[test]
fn argument_is_all_behind_the_first_space() {
    assert!(matches!(Command::parse("search"), Command::Search(q) if q.is_empty()));
    assert!(matches!(Command::parse("search "), Command::Search(q) if q.is_empty()));
    assert!(matches!(Command::parse("search  two  spaces "), Command::Search(q) if q == " two  spaces "));
    assert!(matches!(Command::parse("play caf\u{e9} \u{65e5}\u{672c}"), Command::Play(q) if q == "caf\u{e9} \u{65e5}\u{672c}"));
    assert!(matches!(Command::parse("library now"), Command::Library));
    assert!(matches!(Command::parse("pause please"), Command::Pause));
}

#[test]
fn commands_become_intents() {
    assert!(matches!(
        intent_for_command(Command::Unknown, PlaybackFlag::Playing),
        Intent::Nothing
    ));
    assert!(matches!(
        intent_for_command(Command::Search("q".to_string()), PlaybackFlag::Playing),
        Intent::Lookup(Lookup::Search(q)) if q == "q"
    ));
    assert!(matches!(
        intent_for_command(Command::YTSearch("v".to_string()), PlaybackFlag::Playing),
        Intent::Lookup(Lookup::Videos(q)) if q == "v"
    ));
    assert!(matches!(
        intent_for_command(Command::Play("p".to_string()), PlaybackFlag::Playing),
        Intent::Lookup(Lookup::PlayFirst(q)) if q == "p"
    ));
    assert!(matches!(
        intent_for_command(Command::Library, PlaybackFlag::Paused),
        Intent::Lookup(Lookup::Library)
    ));
}

#[test]
fn pause_command_toggles() {
    assert!(matches!(
        intent_for_command(Command::Pause, PlaybackFlag::Playing),
        Intent::Transport(Request::Pause)
    ));
    assert!(matches!(
        intent_for_command(Command::Pause, PlaybackFlag::Paused),
        Intent::Transport(Request::Resume)
    ));
}
