//! What the consumer loop does with an event: the input box, the list of
//! results, and the intent that the loop must carry out.
//!
//! The loop takes one event at a time, in the order of arrival, and hands
//! it to [`Ui::handle`]. What comes back says what is to be done outside:
//! a transport request for the player, a lookup in a catalog, or nothing.

use vstd::prelude::*;
use unicode_width::UnicodeWidthStr;
use crate::command::{parsed, Command, CommandView};
use crate::event::{Event, Key};
use crate::player::{PlaybackFlag, Player, PlayerView, Request, RequestView};
use crate::track::{views, Platform, Track, TrackView, Uri, UriView};

verus! {

/// Whether keys move about the lists or write into the input box.
#[derive(Clone, Copy, Debug, PartialEq, Eq, Structural)]
pub enum InputMode {
    Normal,
    Editing,
}

/// A list with at most one of its items selected.
#[derive(Debug)]
pub struct StatefulList<T> {
    items: Vec<T>,
    selected: Option<usize>,
}

/// Where the selection stands in a list of `length` items after a step
/// down: on the first item where nothing was selected or the last was, else
/// one further. An empty list has no selection.
pub open spec fn selection_after_next(length: nat, selected: Option<nat>) -> Option<nat> {
    if length == 0 {
        None
    } else {
        match selected {
            Some(at) => if at + 1 >= length {
                Some(0)
            } else {
                Some(at + 1)
            },
            None => Some(0),
        }
    }
}

/// Where the selection stands in a list of `length` items after a step up:
/// on the last item where the first was selected, on the first where nothing
/// was, else one back. An empty list has no selection.
pub open spec fn selection_after_previous(length: nat, selected: Option<nat>) -> Option<nat> {
    if length == 0 {
        None
    } else {
        match selected {
            Some(at) => if at == 0 {
                Some((length - 1) as nat)
            } else {
                Some((at - 1) as nat)
            },
            None => Some(0),
        }
    }
}

/// Where the selection stands once the list holds `length` items: where it
/// stood, if there is still an item there.
pub open spec fn selection_kept(length: nat, selected: Option<nat>) -> Option<nat> {
    match selected {
        Some(at) => if at < length {
            Some(at)
        } else {
            None
        },
        None => None,
    }
}

impl<T> StatefulList<T> {
    /// The items of the list, in order.
    pub closed spec fn items_view(&self) -> Seq<T> {
        self.items@
    }

    /// The position of the selected item.
    pub closed spec fn selected_view(&self) -> Option<nat> {
        match self.selected {
            Some(at) => Some(at as nat),
            None => None,
        }
    }

    /// The selection, if any, points at an item.
    pub open spec fn wf(&self) -> bool {
        self.selected_view() matches Some(at) ==> at < self.items_view().len()
    }

    #[verifier::type_invariant]
    spec fn selection_in_range(&self) -> bool {
        self.wf()
    }

    pub fn new() -> (list: StatefulList<T>)
        ensures
            list.wf(),
            list.items_view() == Seq::<T>::empty(),
            list.selected_view() is None,
    {
        StatefulList { items: Vec::new(), selected: None }
    }

    pub fn with_items(items: Vec<T>) -> (list: StatefulList<T>)
        ensures
            list.wf(),
            list.items_view() == items@,
            list.selected_view() is None,
    {
        StatefulList { items, selected: None }
    }

    pub fn items(&self) -> (items: &Vec<T>)
        ensures
            items@ == self.items_view(),
    {
        &self.items
    }

    pub fn selected(&self) -> (selected: Option<usize>)
        ensures
            match selected {
                Some(at) => self.selected_view() == Some(at as nat),
                None => self.selected_view() is None,
            },
    {
        self.selected
    }

    /// Replaces the items. The selection stays where it was if there is
    /// still an item at that place.
    pub fn set_items(&mut self, items: Vec<T>)
        ensures
            final(self).wf(),
            final(self).items_view() == items@,
            final(self).selected_view() == selection_kept(
                items@.len(),
                old(self).selected_view(),
            ),
    {
        let kept = match self.selected {
            Some(at) => if at < items.len() {
                Some(at)
            } else {
                None
            },
            None => None,
        };
        self.selected = None;
        self.items = items;
        self.selected = kept;
    }

    /// Moves the selection one item down, from the last to the first.
    pub fn next(&mut self)
        ensures
            final(self).wf(),
            final(self).items_view() == old(self).items_view(),
            final(self).selected_view() == selection_after_next(
                old(self).items_view().len(),
                old(self).selected_view(),
            ),
    {
        proof {
            use_type_invariant(&*self);
        }
        if self.items.len() == 0 {
            self.selected = None;
            return ;
        }
        let at: usize = match self.selected {
            Some(at) => if at >= self.items.len() - 1 {
                0
            } else {
                at + 1
            },
            None => 0,
        };
        self.selected = Some(at);
    }

    /// Moves the selection one item up, from the first to the last.
    pub fn previous(&mut self)
        ensures
            final(self).wf(),
            final(self).items_view() == old(self).items_view(),
            final(self).selected_view() == selection_after_previous(
                old(self).items_view().len(),
                old(self).selected_view(),
            ),
    {
        proof {
            use_type_invariant(&*self);
        }
        if self.items.len() == 0 {
            self.selected = None;
            return ;
        }
        let at: usize = match self.selected {
            Some(at) => if at == 0 {
                self.items.len() - 1
            } else {
                at - 1
            },
            None => 0,
        };
        self.selected = Some(at);
    }

    /// The selected item.
    pub fn get_selection(&self) -> (selection: Option<&T>)
        ensures
            match self.selected_view() {
                Some(at) => selection == Some(&self.items_view()[at as int]),
                None => selection is None,
            },
    {
        proof {
            use_type_invariant(self);
        }
        match self.selected {
            Some(at) => Some(&self.items[at]),
            None => None,
        }
    }
}

/// What is asked of a catalog.
#[derive(Debug)]
pub enum Lookup {
    /// Search the streaming service and show what it finds.
    Search(String),
    /// Search the video site and show what it finds.
    Videos(String),
    /// Show the tracks saved in the user's library.
    Library,
    /// Search the streaming service and play the first track found.
    PlayFirst(String),
}

/// The mathematical value of a [`Lookup`].
pub enum LookupView {
    Search(Seq<char>),
    Videos(Seq<char>),
    Library,
    PlayFirst(Seq<char>),
}

impl View for Lookup {
    type V = LookupView;

    open spec fn view(&self) -> LookupView {
        match self {
            Lookup::Search(query) => LookupView::Search(query@),
            Lookup::Videos(query) => LookupView::Videos(query@),
            Lookup::Library => LookupView::Library,
            Lookup::PlayFirst(query) => LookupView::PlayFirst(query@),
        }
    }
}

/// What the consumer loop must do after an event.
#[derive(Debug)]
pub enum Intent {
    Nothing,
    /// Leave the program.
    Quit,
    /// Take the player through this request.
    Transport(Request),
    /// Put this track at the back of the queue.
    Enqueue(Track),
    /// Ask a catalog.
    Lookup(Lookup),
    /// Find title and artists of the referenced track for the now-playing
    /// label.
    Resolve(Uri),
}

/// The mathematical value of an [`Intent`].
pub enum IntentView {
    Nothing,
    Quit,
    Transport(RequestView),
    Enqueue(TrackView),
    Lookup(LookupView),
    Resolve(UriView),
}

impl View for Intent {
    type V = IntentView;

    open spec fn view(&self) -> IntentView {
        match self {
            Intent::Nothing => IntentView::Nothing,
            Intent::Quit => IntentView::Quit,
            Intent::Transport(request) => IntentView::Transport(request@),
            Intent::Enqueue(track) => IntentView::Enqueue(track@),
            Intent::Lookup(lookup) => IntentView::Lookup(lookup@),
            Intent::Resolve(uri) => IntentView::Resolve(uri@),
        }
    }
}

/// What a command of the input box asks for. Pausing goes the other way
/// when the player is paused already.
pub open spec fn command_intent(command: CommandView, flag: PlaybackFlag) -> IntentView {
    match command {
        CommandView::Unknown => IntentView::Nothing,
        CommandView::Search(query) => IntentView::Lookup(LookupView::Search(query)),
        CommandView::Play(query) => IntentView::Lookup(LookupView::PlayFirst(query)),
        CommandView::Library => IntentView::Lookup(LookupView::Library),
        CommandView::Pause => match flag {
            PlaybackFlag::Paused => IntentView::Transport(RequestView::Resume),
            PlaybackFlag::Playing => IntentView::Transport(RequestView::Pause),
        },
        CommandView::YTSearch(query) => IntentView::Lookup(LookupView::Videos(query)),
    }
}

/// What a command of the input box asks for.
pub fn intent_for_command(command: Command, flag: PlaybackFlag) -> (intent: Intent)
    ensures
        intent@ == command_intent(command@, flag),
{
    match command {
        Command::Unknown => Intent::Nothing,
        Command::Search(query) => Intent::Lookup(Lookup::Search(query)),
        Command::Play(query) => Intent::Lookup(Lookup::PlayFirst(query)),
        Command::Library => Intent::Lookup(Lookup::Library),
        Command::Pause => match flag {
            PlaybackFlag::Paused => Intent::Transport(Request::Resume),
            PlaybackFlag::Playing => Intent::Transport(Request::Pause),
        },
        Command::YTSearch(query) => Intent::Lookup(Lookup::Videos(query)),
    }
}

/// Calls `String::push`: the character is appended to the text.
#[verifier::external_body]
fn push_char(text: &mut String, c: char)
    ensures
        final(text)@ == old(text)@.push(c),
{
    text.push(c)
}

/// Calls `String::pop`: the last character is taken off the text; an empty
/// text stays empty.
#[verifier::external_body]
fn pop_char(text: &mut String)
    ensures
        final(text)@ == if old(text)@.len() > 0 {
            old(text)@.drop_last()
        } else {
            old(text)@
        },
{
    text.pop();
}

/// The number of terminal columns that `UnicodeWidthStr::width` counts for
/// `text`.
pub uninterp spec fn display_width(text: Seq<char>) -> nat;

/// Calls `UnicodeWidthStr::width`. The result is the number of columns
/// named by [`display_width`].
#[verifier::external_body]
fn width_of(text: &str) -> (width: usize)
    ensures
        width == display_width(text@),
{
    UnicodeWidthStr::width(text)
}

/// How wide the terminal must be for the queue to be shown beside the
/// results: wider than this.
pub const QUEUE_MIN_WIDTH: u16 = 90;

/// The column of the cursor in an input box whose frame stands at column
/// `left` and which shows a text of `width` columns: one behind the text,
/// inside the frame. There is none where that is no 16-bit number.
pub open spec fn column_behind(left: u16, width: nat) -> Option<u16> {
    if left + width + 1 <= u16::MAX {
        Some((left + width + 1) as u16)
    } else {
        None
    }
}

/// The column of the cursor in an input box whose frame stands at column
/// `left` and which shows a text of `width` columns.
pub fn cursor_column_behind(left: u16, width: usize) -> (column: Option<u16>)
    ensures
        column == column_behind(left, width as nat),
{
    if width >= 0xffff {
        return None;
    }
    let narrow: u16 = width as u16;
    if narrow >= u16::MAX - left {
        None
    } else {
        Some(left + narrow + 1)
    }
}

/// The state of the user interface.
#[derive(Debug)]
pub struct Ui {
    /// Current value of the input box
    input: String,
    /// Current input mode
    input_mode: InputMode,
    /// Search results
    results: StatefulList<Track>,
    /// Where the search results come from
    source: Platform,
    /// Whether the queue is shown beside the results
    toggle_queue: bool,
}

/// The mathematical value of a [`Ui`].
pub struct UiView {
    pub input: Seq<char>,
    pub mode: InputMode,
    pub results: Seq<TrackView>,
    pub selected: Option<nat>,
    pub source: Platform,
    pub queue_shown: bool,
}

impl UiView {
    /// The selection, if any, points at a result.
    pub open spec fn wf(self) -> bool {
        self.selected matches Some(at) ==> at < self.results.len()
    }

    pub open spec fn initial() -> UiView {
        UiView {
            input: Seq::empty(),
            mode: InputMode::Normal,
            results: Seq::empty(),
            selected: None,
            source: Platform::Spotify,
            queue_shown: true,
        }
    }

    /// The selected result.
    pub open spec fn selection(self) -> Option<TrackView> {
        match self.selected {
            Some(at) => Some(self.results[at as int]),
            None => None,
        }
    }

    /// The state after a key.
    pub open spec fn after_key(self, key: Key) -> UiView {
        match self.mode {
            InputMode::Normal => match key {
                Key::Char('h') => UiView { mode: InputMode::Editing, ..self },
                Key::Down => UiView {
                    selected: selection_after_next(self.results.len(), self.selected),
                    ..self
                },
                Key::Up => UiView {
                    selected: selection_after_previous(self.results.len(), self.selected),
                    ..self
                },
                Key::Char('q') => UiView { queue_shown: !self.queue_shown, ..self },
                _ => self,
            },
            InputMode::Editing => match key {
                Key::Char('\n') => UiView { input: Seq::empty(), mode: InputMode::Normal, ..self },
                Key::Char(c) => UiView { input: self.input.push(c), ..self },
                Key::Backspace => UiView {
                    input: if self.input.len() > 0 {
                        self.input.drop_last()
                    } else {
                        self.input
                    },
                    ..self
                },
                Key::Esc => UiView { mode: InputMode::Normal, ..self },
                _ => self,
            },
        }
    }

    /// What a key asks for, given the flag of the player.
    pub open spec fn key_intent(self, key: Key, flag: PlaybackFlag) -> IntentView {
        match self.mode {
            InputMode::Normal => match key {
                Key::Char('e') => IntentView::Quit,
                Key::Char('\n') => match self.selection() {
                    Some(track) => IntentView::Transport(RequestView::Play(track)),
                    None => IntentView::Nothing,
                },
                Key::Char('a') => match self.selection() {
                    Some(track) => IntentView::Enqueue(track),
                    None => IntentView::Nothing,
                },
                Key::Char(',') => IntentView::Transport(RequestView::Rewind),
                Key::Char('.') => IntentView::Transport(RequestView::Advance),
                _ => IntentView::Nothing,
            },
            InputMode::Editing => match key {
                Key::Char('\n') => command_intent(parsed(self.input), flag),
                _ => IntentView::Nothing,
            },
        }
    }

    /// What an event asks for, given the state of the player and whether
    /// the sink of the local backend has run empty.
    pub open spec fn event_intent(self, event: Event<Key>, player: PlayerView, sink_empty: bool) -> IntentView {
        match event {
            Event::Input(key) => self.key_intent(key, player.flag),
            Event::Tick => if player.tick_ends_track(sink_empty) {
                IntentView::Transport(RequestView::TrackEnded)
            } else {
                IntentView::Nothing
            },
            Event::UpdateNP(uri) => IntentView::Resolve(uri@),
            Event::TrackEnded => IntentView::Transport(RequestView::TrackEnded),
            Event::PleasePause => IntentView::Transport(RequestView::Pause),
            Event::PleaseResume => IntentView::Transport(RequestView::Resume),
        }
    }

    /// The state after an event: only a key changes it.
    pub open spec fn after_event(self, event: Event<Key>) -> UiView {
        match event {
            Event::Input(key) => self.after_key(key),
            _ => self,
        }
    }
}

impl View for Ui {
    type V = UiView;

    closed spec fn view(&self) -> UiView {
        UiView {
            input: self.input@,
            mode: self.input_mode,
            results: views(self.results.items_view()),
            selected: self.results.selected_view(),
            source: self.source,
            queue_shown: self.toggle_queue,
        }
    }
}

impl Ui {
    pub fn new() -> (ui: Ui)
        ensures
            ui@ == UiView::initial(),
            ui@.wf(),
    {
        let ui = Ui {
            input: String::new(),
            input_mode: InputMode::Normal,
            results: StatefulList::new(),
            source: Platform::Spotify,
            toggle_queue: true,
        };
        assert(ui@.results =~= Seq::empty());
        ui
    }

    pub fn input(&self) -> (input: &String)
        ensures
            input@ == self@.input,
    {
        &self.input
    }

    pub fn input_mode(&self) -> (mode: InputMode)
        ensures
            mode == self@.mode,
    {
        self.input_mode
    }

    pub fn results(&self) -> (results: &StatefulList<Track>)
        ensures
            views(results.items_view()) == self@.results,
            results.selected_view() == self@.selected,
    {
        &self.results
    }

    /// Which catalog the results come from.
    pub fn source(&self) -> (source: Platform)
        ensures
            source == self@.source,
    {
        self.source
    }

    pub fn toggle_queue(&self) -> (shown: bool)
        ensures
            shown == self@.queue_shown,
    {
        self.toggle_queue
    }

    /// Whether the queue is shown beside the results on a terminal of
    /// `width` columns.
    pub fn queue_shown(&self, width: u16) -> (shown: bool)
        ensures
            shown == (self@.queue_shown && width > QUEUE_MIN_WIDTH),
    {
        self.toggle_queue && width > QUEUE_MIN_WIDTH
    }

    /// The column of the cursor while the input box, whose frame stands at
    /// column `left`, is edited.
    pub fn cursor_column(&self, left: u16) -> (column: Option<u16>)
        ensures
            column == column_behind(left, display_width(self@.input)),
    {
        cursor_column_behind(left, width_of(self.input.as_str()))
    }

    /// Shows what a catalog has found. The selection stays where it was if
    /// there is still a result at that place.
    pub fn show_results(&mut self, tracks: Vec<Track>, source: Platform)
        ensures
            final(self)@ == (UiView {
                results: views(tracks@),
                selected: selection_kept(tracks@.len(), old(self)@.selected),
                source,
                ..old(self)@
            }),
            final(self)@.wf(),
    {
        self.results.set_items(tracks);
        self.source = source;
    }

    /// Takes a key: moves the selection, edits the input box or switches
    /// the mode, and says what the key asks for beyond that.
    pub fn on_key(&mut self, key: Key, flag: PlaybackFlag) -> (intent: Intent)
        ensures
            final(self)@ == old(self)@.after_key(key),
            final(self)@.wf(),
            intent@ == old(self)@.key_intent(key, flag),
    {
        proof {
            use_type_invariant(&self.results);
        }
        match self.input_mode {
            InputMode::Normal => match key {
                Key::Char('h') => {
                    self.input_mode = InputMode::Editing;
                    Intent::Nothing
                },
                Key::Down => {
                    self.results.next();
                    Intent::Nothing
                },
                Key::Up => {
                    self.results.previous();
                    Intent::Nothing
                },
                Key::Char('e') => Intent::Quit,
                Key::Char('\n') => match self.results.get_selection() {
                    Some(track) => Intent::Transport(Request::Play(track.clone())),
                    None => Intent::Nothing,
                },
                Key::Char('a') => match self.results.get_selection() {
                    Some(track) => Intent::Enqueue(track.clone()),
                    None => Intent::Nothing,
                },
                Key::Char('q') => {
                    self.toggle_queue = !self.toggle_queue;
                    Intent::Nothing
                },
                Key::Char(',') => Intent::Transport(Request::Rewind),
                Key::Char('.') => Intent::Transport(Request::Advance),
                _ => Intent::Nothing,
            },
            InputMode::Editing => match key {
                Key::Char('\n') => {
                    let mut line = String::new();
                    core::mem::swap(&mut self.input, &mut line);
                    self.input_mode = InputMode::Normal;
                    intent_for_command(Command::parse(line.as_str()), flag)
                },
                Key::Char(c) => {
                    push_char(&mut self.input, c);
                    Intent::Nothing
                },
                Key::Backspace => {
                    pop_char(&mut self.input);
                    Intent::Nothing
                },
                Key::Esc => {
                    self.input_mode = InputMode::Normal;
                    Intent::Nothing
                },
                _ => Intent::Nothing,
            },
        }
    }

    /// Takes the next event of the stream and says what the loop must do.
    /// `sink_empty` says whether the sink of the local backend has run
    /// empty; it counts on a timer tick only.
    pub fn handle(&mut self, event: Event<Key>, player: &Player, sink_empty: bool) -> (intent:
        Intent)
        ensures
            final(self)@ == old(self)@.after_event(event),
            final(self)@.wf(),
            intent@ == old(self)@.event_intent(event, player@, sink_empty),
    {
        proof {
            use_type_invariant(&self.results);
        }
        match event {
            Event::Input(key) => self.on_key(key, player.flag()),
            Event::Tick => if player.tick_ends_track(sink_empty) {
                Intent::Transport(Request::TrackEnded)
            } else {
                Intent::Nothing
            },
            Event::UpdateNP(uri) => Intent::Resolve(uri),
            Event::TrackEnded => Intent::Transport(Request::TrackEnded),
            Event::PleasePause => Intent::Transport(Request::Pause),
            Event::PleaseResume => Intent::Transport(Request::Resume),
        }
    }
}

} // verus!
