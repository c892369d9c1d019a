//! The playback state machine: what is playing, which backend owns the
//! output device, and the queue and history around the current track.
//!
//! The machine never talks to a backend itself. For each request it names the
//! command that the backend must carry out ([`Player::command`]); the caller
//! performs it and hands the outcome to the transition ([`Player::apply`] or
//! one of the named operations). A failed command leaves the state as it was.

use vstd::prelude::*;
use crate::error::{BackendFailure, Error};
use crate::track::{views, Platform, Track, TrackView, Uri, UriView};

verus! {

/// Whether the active backend was last told to play or to pause.
#[derive(Clone, Copy, Debug, PartialEq, Eq, Structural)]
pub enum PlaybackFlag {
    Playing,
    Paused,
}

/// The state of the machine as its transitions see it.
#[derive(Clone, Copy, Debug, PartialEq, Eq, Structural)]
pub enum PlayerState {
    /// Nothing is current.
    Idle,
    Playing(Platform),
    Paused(Platform),
}

/// A command for one of the two backends.
#[derive(Debug)]
pub enum BackendCommand {
    /// Start the referenced track on the backend that its tag names.
    Play(Uri),
    Pause(Platform),
    Resume(Platform),
}

/// The mathematical value of a [`BackendCommand`].
pub enum BackendCommandView {
    Play(UriView),
    Pause(Platform),
    Resume(Platform),
}

impl View for BackendCommand {
    type V = BackendCommandView;

    open spec fn view(&self) -> BackendCommandView {
        match self {
            BackendCommand::Play(uri) => BackendCommandView::Play(uri@),
            BackendCommand::Pause(backend) => BackendCommandView::Pause(*backend),
            BackendCommand::Resume(backend) => BackendCommandView::Resume(*backend),
        }
    }
}

impl BackendCommandView {
    /// The backend that must carry the command out.
    pub open spec fn backend(self) -> Platform {
        match self {
            BackendCommandView::Play(uri) => uri.platform(),
            BackendCommandView::Pause(backend) => backend,
            BackendCommandView::Resume(backend) => backend,
        }
    }
}

impl BackendCommand {
    /// The backend that must carry the command out.
    pub fn backend(&self) -> (backend: Platform)
        ensures
            backend == self@.backend(),
    {
        match self {
            BackendCommand::Play(uri) => uri.platform(),
            BackendCommand::Pause(backend) => *backend,
            BackendCommand::Resume(backend) => *backend,
        }
    }
}

/// What can be asked of the player.
#[derive(Debug)]
pub enum Request {
    Play(Track),
    Pause,
    Resume,
    Advance,
    Rewind,
    /// The current track has played to its end.
    TrackEnded,
}

/// The mathematical value of a [`Request`].
pub enum RequestView {
    Play(TrackView),
    Pause,
    Resume,
    Advance,
    Rewind,
    TrackEnded,
}

impl View for Request {
    type V = RequestView;

    open spec fn view(&self) -> RequestView {
        match self {
            Request::Play(track) => RequestView::Play(track@),
            Request::Pause => RequestView::Pause,
            Request::Resume => RequestView::Resume,
            Request::Advance => RequestView::Advance,
            Request::Rewind => RequestView::Rewind,
            Request::TrackEnded => RequestView::TrackEnded,
        }
    }
}

/// The mathematical value of a [`Player`].
pub struct PlayerView {
    /// Tracks waiting to be played; the first is next.
    pub queue: Seq<TrackView>,
    /// Tracks that were played; the first is the most recent.
    pub history: Seq<TrackView>,
    pub current: Option<TrackView>,
    pub flag: PlaybackFlag,
    pub active: Platform,
    /// The now-playing label as it is shown.
    pub label: Seq<char>,
}

impl PlayerView {
    /// The active backend is the one that plays the current track.
    pub open spec fn wf(self) -> bool {
        self.current matches Some(track) ==> self.active == track.uri.platform()
    }

    pub open spec fn initial() -> PlayerView {
        PlayerView {
            queue: Seq::empty(),
            history: Seq::empty(),
            current: None,
            flag: PlaybackFlag::Paused,
            active: Platform::Spotify,
            label: Seq::empty(),
        }
    }

    pub open spec fn state(self) -> PlayerState {
        match (self.current, self.flag) {
            (None, _) => PlayerState::Idle,
            (Some(_), PlaybackFlag::Playing) => PlayerState::Playing(self.active),
            (Some(_), PlaybackFlag::Paused) => PlayerState::Paused(self.active),
        }
    }

    /// The state after `track` has started on its backend. A locally played
    /// track is labelled by its title at once; a streamed one keeps the label
    /// until the stream announces what it plays.
    pub open spec fn played(self, track: TrackView) -> PlayerView {
        PlayerView {
            current: Some(track),
            flag: PlaybackFlag::Playing,
            active: track.uri.platform(),
            label: if track.uri is Youtube { track.name } else { self.label },
            ..self
        }
    }

    pub open spec fn paused(self) -> PlayerView {
        PlayerView { flag: PlaybackFlag::Paused, ..self }
    }

    pub open spec fn resumed(self) -> PlayerView {
        PlayerView { flag: PlaybackFlag::Playing, ..self }
    }

    pub open spec fn enqueued(self, track: TrackView) -> PlayerView {
        PlayerView { queue: self.queue.push(track), ..self }
    }

    pub open spec fn labelled(self, label: Seq<char>) -> PlayerView {
        PlayerView { label, ..self }
    }

    /// `tracks` with the current track, if there is one, put in front.
    pub open spec fn shelved(self, tracks: Seq<TrackView>) -> Seq<TrackView> {
        match self.current {
            Some(track) => seq![track] + tracks,
            None => tracks,
        }
    }

    /// The state after the head of the queue has started: the current track
    /// goes to the front of the history. Nothing changes on an empty queue.
    pub open spec fn advanced(self) -> PlayerView {
        if self.queue.len() == 0 {
            self
        } else {
            PlayerView {
                queue: self.queue.drop_first(),
                history: self.shelved(self.history),
                ..self
            }.played(self.queue[0])
        }
    }

    /// The state after the head of the history has started: the current
    /// track goes to the front of the queue. Nothing changes on an empty
    /// history.
    pub open spec fn rewound(self) -> PlayerView {
        if self.history.len() == 0 {
            self
        } else {
            PlayerView {
                queue: self.shelved(self.queue),
                history: self.history.drop_first(),
                ..self
            }.played(self.history[0])
        }
    }

    /// The state after the current track has ended and, where the queue held
    /// one, the next has started. With an empty queue nothing is current any
    /// more.
    pub open spec fn ended(self) -> PlayerView {
        if self.queue.len() == 0 {
            PlayerView { current: None, ..self }
        } else {
            self.advanced()
        }
    }

    /// The state after `n` successful advances.
    pub open spec fn advanced_by(self, n: nat) -> PlayerView
        decreases n,
    {
        if n == 0 {
            self
        } else {
            self.advanced().advanced_by((n - 1) as nat)
        }
    }

    /// The state after `n` successful rewinds.
    pub open spec fn rewound_by(self, n: nat) -> PlayerView
        decreases n,
    {
        if n == 0 {
            self
        } else {
            self.rewound_by((n - 1) as nat).rewound()
        }
    }

    /// Whether two states agree on everything but the flag and the label.
    pub open spec fn same_tracks(self, other: PlayerView) -> bool {
        &&& self.queue == other.queue
        &&& self.history == other.history
        &&& self.current == other.current
        &&& self.active == other.active
    }

    /// The command that a backend must carry out for `request`, if any.
    pub open spec fn command(self, request: RequestView) -> Option<BackendCommandView> {
        match request {
            RequestView::Play(track) => Some(BackendCommandView::Play(track.uri)),
            RequestView::Pause => Some(BackendCommandView::Pause(self.active)),
            RequestView::Resume => Some(BackendCommandView::Resume(self.active)),
            RequestView::Advance | RequestView::TrackEnded => if self.queue.len() == 0 {
                None
            } else {
                Some(BackendCommandView::Play(self.queue[0].uri))
            },
            RequestView::Rewind => if self.history.len() == 0 {
                None
            } else {
                Some(BackendCommandView::Play(self.history[0].uri))
            },
        }
    }

    /// The state that `request` leads to once its command has succeeded, or
    /// at once where it needs none.
    pub open spec fn completed(self, request: RequestView) -> PlayerView {
        match request {
            RequestView::Play(track) => self.played(track),
            RequestView::Pause => self.paused(),
            RequestView::Resume => self.resumed(),
            RequestView::Advance => self.advanced(),
            RequestView::Rewind => self.rewound(),
            RequestView::TrackEnded => self.ended(),
        }
    }

    /// Whether `request` with this outcome of its command is refused. The
    /// outcome counts only where the request has a command.
    pub open spec fn refused(self, request: RequestView, outcome: Result<(), BackendFailure>) -> bool {
        self.command(request) is Some && outcome is Err
    }

    /// The state after `request`, given the outcome of its command: a
    /// failure leaves the state as it was.
    pub open spec fn step(self, request: RequestView, outcome: Result<(), BackendFailure>) -> PlayerView {
        if self.refused(request, outcome) {
            self
        } else {
            self.completed(request)
        }
    }

    /// What the caller is told after `request`: the failure of its command,
    /// or success.
    pub open spec fn verdict(self, request: RequestView, outcome: Result<(), BackendFailure>) -> Result<(), Error> {
        if self.refused(request, outcome) {
            Err(Error::of_failure(outcome->Err_0))
        } else {
            Ok(())
        }
    }

    /// What the state shows of itself.
    pub open spec fn snapshot(self) -> SnapshotView {
        SnapshotView { current: self.current, flag: self.flag, active: self.active }
    }

    /// Whether a timer tick finds the current track ended. Only the local
    /// backend is polled, and only while it is the active one.
    pub open spec fn tick_ends_track(self, sink_empty: bool) -> bool {
        self.active == Platform::Youtube && sink_empty
    }
}

/// What the player shows of itself at one moment.
#[derive(Debug)]
pub struct Snapshot {
    pub current: Option<Track>,
    pub flag: PlaybackFlag,
    pub active: Platform,
}

/// The mathematical value of a [`Snapshot`].
pub struct SnapshotView {
    pub current: Option<TrackView>,
    pub flag: PlaybackFlag,
    pub active: Platform,
}

impl View for Snapshot {
    type V = SnapshotView;

    open spec fn view(&self) -> SnapshotView {
        SnapshotView {
            current: match self.current {
                Some(track) => Some(track@),
                None => None,
            },
            flag: self.flag,
            active: self.active,
        }
    }
}

/// The current track together with the backend that owns the output
/// device. The two change together, so that the backend is always the one
/// that plays the track.
struct Deck {
    current: Option<Track>,
    active: Platform,
}

impl Deck {
    #[verifier::type_invariant]
    spec fn matched(self) -> bool {
        self.current matches Some(track) ==> self.active == track@.uri.platform()
    }

    /// A deck without a track, with `active` left as the owner of the output.
    fn empty(active: Platform) -> (deck: Deck)
        ensures
            deck.current is None,
            deck.active == active,
    {
        Deck { current: None, active }
    }

    /// A deck with `track` on it, owned by the backend that plays it.
    fn loaded(track: Track) -> (deck: Deck)
        ensures
            deck.current == Some(track),
            deck.active == track@.uri.platform(),
    {
        let active = track.uri().platform();
        Deck { current: Some(track), active }
    }

    /// The track that was on the deck.
    fn unloaded(self) -> (track: Option<Track>)
        ensures
            track == self.current,
    {
        self.current
    }
}

/// The playback state machine.
pub struct Player {
    queue: Vec<Track>,
    history: Vec<Track>,
    deck: Deck,
    flag: PlaybackFlag,
    label: String,
}

impl View for Player {
    type V = PlayerView;

    closed spec fn view(&self) -> PlayerView {
        PlayerView {
            queue: views(self.queue@),
            history: views(self.history@),
            current: match self.deck.current {
                Some(track) => Some(track@),
                None => None,
            },
            flag: self.flag,
            active: self.deck.active,
            label: self.label@,
        }
    }
}

impl Player {
    /// A player with nothing queued, played or current.
    pub fn new() -> (player: Player)
        ensures
            player@ == PlayerView::initial(),
            player@.wf(),
    {
        let player = Player {
            queue: Vec::new(),
            history: Vec::new(),
            deck: Deck::empty(Platform::Spotify),
            flag: PlaybackFlag::Paused,
            label: String::new(),
        };
        assert(player@.queue =~= Seq::empty());
        assert(player@.history =~= Seq::empty());
        player
    }

    pub fn queue(&self) -> (queue: &Vec<Track>)
        ensures
            views(queue@) == self@.queue,
    {
        &self.queue
    }

    pub fn history(&self) -> (history: &Vec<Track>)
        ensures
            views(history@) == self@.history,
    {
        &self.history
    }

    pub fn current(&self) -> (current: Option<&Track>)
        ensures
            current is Some == self@.current is Some,
            current matches Some(track) ==> self@.current == Some(track@),
    {
        self.deck.current.as_ref()
    }

    pub fn flag(&self) -> (flag: PlaybackFlag)
        ensures
            flag == self@.flag,
    {
        self.flag
    }

    pub fn active(&self) -> (active: Platform)
        ensures
            active == self@.active,
    {
        self.deck.active
    }

    pub fn label(&self) -> (label: &String)
        ensures
            label@ == self@.label,
    {
        &self.label
    }

    pub fn state(&self) -> (state: PlayerState)
        ensures
            state == self@.state(),
    {
        match (&self.deck.current, self.flag) {
            (None, _) => PlayerState::Idle,
            (Some(_), PlaybackFlag::Playing) => PlayerState::Playing(self.deck.active),
            (Some(_), PlaybackFlag::Paused) => PlayerState::Paused(self.deck.active),
        }
    }

    /// What the player shows of itself now, for rendering and for the
    /// media control surface.
    pub fn snapshot(&self) -> (snapshot: Snapshot)
        ensures
            snapshot@ == self@.snapshot(),
    {
        let current = match &self.deck.current {
            Some(track) => Some(track.clone()),
            None => None,
        };
        Snapshot { current, flag: self.flag, active: self.deck.active }
    }

    /// Puts `track` at the back of the queue.
    pub fn enqueue(&mut self, track: Track)
        ensures
            final(self)@ == old(self)@.enqueued(track@),
            final(self)@.wf(),
    {
        proof {
            use_type_invariant(&self.deck);
        }
        self.queue.push(track);
        assert(final(self)@.queue =~= old(self)@.queue.push(track@));
    }

    /// Replaces the now-playing label. The label of the resolution that
    /// completes last stays.
    pub fn set_label(&mut self, label: String)
        ensures
            final(self)@ == old(self)@.labelled(label@),
            final(self)@.wf(),
    {
        proof {
            use_type_invariant(&self.deck);
        }
        self.label = label;
    }

    /// Whether a timer tick finds the current track ended, given whether the
    /// local backend's sink has run empty.
    pub fn tick_ends_track(&self, sink_empty: bool) -> (ended: bool)
        ensures
            ended == self@.tick_ends_track(sink_empty),
    {
        match self.deck.active {
            Platform::Youtube => sink_empty,
            Platform::Spotify => false,
        }
    }

    /// Takes the current track off the deck.
    fn take_current(&mut self) -> (track: Option<Track>)
        ensures
            final(self)@ == (PlayerView { current: None, ..old(self)@ }),
            match track {
                Some(taken) => old(self)@.current == Some(taken@),
                None => old(self)@.current is None,
            },
    {
        let mut deck = Deck::empty(self.deck.active);
        proof {
            use_type_invariant(&deck);
        }
        core::mem::swap(&mut self.deck, &mut deck);
        deck.unloaded()
    }

    /// Makes `track` the current one, as the last step of a transition whose
    /// command has succeeded.
    fn start(&mut self, track: Track)
        ensures
            final(self)@ == old(self)@.played(track@),
    {
        self.flag = PlaybackFlag::Playing;
        if let Uri::Youtube(_) = track.uri() {
            self.label = track.name().clone();
        }
        self.deck = Deck::loaded(track);
    }

    /// Records the outcome of starting `track` on its backend. On success
    /// the track is current, its backend is the active one and the flag says
    /// playing; on failure nothing changes and the failure is returned.
    pub fn play(&mut self, track: Track, outcome: Result<(), BackendFailure>) -> (result: Result<
        (),
        Error,
    >)
        ensures
            final(self)@ == old(self)@.step(RequestView::Play(track@), outcome),
            final(self)@.wf(),
            result == old(self)@.verdict(RequestView::Play(track@), outcome),
            outcome is Ok ==> result is Ok && final(self)@ == old(self)@.played(track@),
            outcome is Err ==> result is Err && final(self)@ == old(self)@,
    {
        proof {
            use_type_invariant(&self.deck);
        }
        match outcome {
            Err(failure) => Err(Error::from_failure(failure)),
            Ok(()) => {
                self.start(track);
                Ok(())
            },
        }
    }

    /// Records the outcome of pausing the active backend.
    pub fn pause(&mut self, outcome: Result<(), BackendFailure>) -> (result: Result<(), Error>)
        ensures
            final(self)@ == old(self)@.step(RequestView::Pause, outcome),
            final(self)@.wf(),
            result == old(self)@.verdict(RequestView::Pause, outcome),
            outcome is Ok ==> result is Ok && final(self)@ == old(self)@.paused(),
            outcome is Err ==> result is Err && final(self)@ == old(self)@,
    {
        proof {
            use_type_invariant(&self.deck);
        }
        match outcome {
            Err(failure) => Err(Error::from_failure(failure)),
            Ok(()) => {
                self.flag = PlaybackFlag::Paused;
                Ok(())
            },
        }
    }

    /// Records the outcome of resuming the active backend.
    pub fn resume(&mut self, outcome: Result<(), BackendFailure>) -> (result: Result<(), Error>)
        ensures
            final(self)@ == old(self)@.step(RequestView::Resume, outcome),
            final(self)@.wf(),
            result == old(self)@.verdict(RequestView::Resume, outcome),
            outcome is Ok ==> result is Ok && final(self)@ == old(self)@.resumed(),
            outcome is Err ==> result is Err && final(self)@ == old(self)@,
    {
        proof {
            use_type_invariant(&self.deck);
        }
        match outcome {
            Err(failure) => Err(Error::from_failure(failure)),
            Ok(()) => {
                self.flag = PlaybackFlag::Playing;
                Ok(())
            },
        }
    }

    /// Records the outcome of starting the head of the queue. With an empty
    /// queue there was nothing to start: the outcome is ignored and nothing
    /// changes.
    pub fn advance(&mut self, outcome: Result<(), BackendFailure>) -> (result: Result<(), Error>)
        ensures
            final(self)@ == old(self)@.step(RequestView::Advance, outcome),
            final(self)@.wf(),
            result == old(self)@.verdict(RequestView::Advance, outcome),
            old(self)@.queue.len() == 0 ==> result is Ok && final(self)@ == old(self)@,
            old(self)@.queue.len() > 0 && outcome is Ok ==> result is Ok && final(self)@ == old(
                self,
            )@.advanced(),
            old(self)@.queue.len() > 0 && outcome is Err ==> result is Err && final(self)@ == old(
                self,
            )@,
    {
        proof {
            use_type_invariant(&self.deck);
        }
        if self.queue.len() == 0 {
            return Ok(());
        }
        match outcome {
            Err(failure) => Err(Error::from_failure(failure)),
            Ok(()) => {
                let next = self.queue.remove(0);
                if let Some(previous) = self.take_current() {
                    self.history.insert(0, previous);
                }
                proof {
                    let shelved = PlayerView {
                        queue: old(self)@.queue.drop_first(),
                        history: old(self)@.shelved(old(self)@.history),
                        ..old(self)@
                    };
                    assert(self@.queue =~= shelved.queue);
                    assert(self@.history =~= shelved.history);
                    assert(next@ == old(self)@.queue[0]);
                }
                self.start(next);
                Ok(())
            },
        }
    }

    /// Records the outcome of starting the head of the history. With an
    /// empty history there was nothing to start: the outcome is ignored and
    /// nothing changes.
    pub fn rewind(&mut self, outcome: Result<(), BackendFailure>) -> (result: Result<(), Error>)
        ensures
            final(self)@ == old(self)@.step(RequestView::Rewind, outcome),
            final(self)@.wf(),
            result == old(self)@.verdict(RequestView::Rewind, outcome),
            old(self)@.history.len() == 0 ==> result is Ok && final(self)@ == old(self)@,
            old(self)@.history.len() > 0 && outcome is Ok ==> result is Ok && final(self)@ == old(
                self,
            )@.rewound(),
            old(self)@.history.len() > 0 && outcome is Err ==> result is Err && final(self)@
                == old(self)@,
    {
        proof {
            use_type_invariant(&self.deck);
        }
        if self.history.len() == 0 {
            return Ok(());
        }
        match outcome {
            Err(failure) => Err(Error::from_failure(failure)),
            Ok(()) => {
                let previous = self.history.remove(0);
                if let Some(current) = self.take_current() {
                    self.queue.insert(0, current);
                }
                proof {
                    let shelved = PlayerView {
                        queue: old(self)@.shelved(old(self)@.queue),
                        history: old(self)@.history.drop_first(),
                        ..old(self)@
                    };
                    assert(self@.queue =~= shelved.queue);
                    assert(self@.history =~= shelved.history);
                    assert(previous@ == old(self)@.history[0]);
                }
                self.start(previous);
                Ok(())
            },
        }
    }

    /// Records that the current track has ended, and the outcome of starting
    /// the head of the queue. With an empty queue nothing is current
    /// afterwards and the outcome is ignored.
    pub fn track_ended(&mut self, outcome: Result<(), BackendFailure>) -> (result: Result<
        (),
        Error,
    >)
        ensures
            final(self)@ == old(self)@.step(RequestView::TrackEnded, outcome),
            final(self)@.wf(),
            result == old(self)@.verdict(RequestView::TrackEnded, outcome),
            old(self)@.queue.len() == 0 ==> result is Ok && final(self)@.state()
                == PlayerState::Idle,
            old(self)@.queue.len() > 0 && outcome is Ok ==> result is Ok && final(self)@ == old(
                self,
            )@.advanced(),
            old(self)@.queue.len() > 0 && outcome is Err ==> result is Err && final(self)@ == old(
                self,
            )@,
    {
        proof {
            use_type_invariant(&self.deck);
        }
        if self.queue.len() == 0 {
            self.deck = Deck::empty(self.deck.active);
            Ok(())
        } else {
            self.advance(outcome)
        }
    }

    /// The command that a backend must carry out for `request`, if any. The
    /// state does not change; the outcome of the command goes to
    /// [`Player::apply`] together with the request.
    pub fn command(&self, request: &Request) -> (command: Option<BackendCommand>)
        ensures
            command is Some == self@.command(request@) is Some,
            command matches Some(c) ==> self@.command(request@) == Some(c@),
    {
        match request {
            Request::Play(track) => Some(BackendCommand::Play(track.uri().clone())),
            Request::Pause => Some(BackendCommand::Pause(self.deck.active)),
            Request::Resume => Some(BackendCommand::Resume(self.deck.active)),
            Request::Advance | Request::TrackEnded => {
                if self.queue.len() == 0 {
                    None
                } else {
                    Some(BackendCommand::Play(self.queue[0].uri().clone()))
                }
            },
            Request::Rewind => {
                if self.history.len() == 0 {
                    None
                } else {
                    Some(BackendCommand::Play(self.history[0].uri().clone()))
                }
            },
        }
    }

    /// Takes the machine through `request`, given the outcome of the command
    /// that [`Player::command`] named for it. Where the request had no
    /// command the outcome is ignored.
    pub fn apply(&mut self, request: Request, outcome: Result<(), BackendFailure>) -> (result:
        Result<(), Error>)
        ensures
            final(self)@ == old(self)@.step(request@, outcome),
            final(self)@.wf(),
            result == old(self)@.verdict(request@, outcome),
    {
        proof {
            use_type_invariant(&self.deck);
        }
        match request {
            Request::Play(track) => self.play(track, outcome),
            Request::Pause => self.pause(outcome),
            Request::Resume => self.resume(outcome),
            Request::Advance => self.advance(outcome),
            Request::Rewind => self.rewind(outcome),
            Request::TrackEnded => self.track_ended(outcome),
        }
    }
}


} // verus!
