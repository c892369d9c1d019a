//! What holds of the playback state machine in every state.
//!
//! Each law is stated over [`PlayerView`], the value that the contracts of
//! [`Player`](crate::player::Player) speak of, so it holds of every run of
//! the executable machine.

use vstd::prelude::*;
use crate::error::BackendFailure;
use crate::mirror::Mirror;
use crate::player::{PlaybackFlag, PlayerState, PlayerView, RequestView};
use crate::track::{Platform, TrackView};

verus! {

/// Every transition keeps the state well formed, whatever the outcome of
/// its command.
pub proof fn step_keeps_well_formed(
    state: PlayerView,
    request: RequestView,
    outcome: Result<(), BackendFailure>,
)
    requires
        state.wf(),
    ensures
        state.step(request, outcome).wf(),
{
}

/// A request whose command fails changes nothing and reports the failure.
pub proof fn failure_changes_nothing(
    state: PlayerView,
    request: RequestView,
    failure: BackendFailure,
)
    requires
        state.command(request) is Some,
    ensures
        state.step(request, Err(failure)) == state,
        state.verdict(request, Err(failure)) is Err,
{
}

/// Advancing and then rewinding brings back the current track, the queue,
/// the history and the active backend, and leaves the player playing. It
/// holds where there is a track to advance to and a current track to come
/// back to.
pub proof fn advance_then_rewind(state: PlayerView)
    requires
        state.wf(),
        state.queue.len() > 0,
        state.current is Some,
    ensures
        state.advanced().rewound().same_tracks(state),
        state.advanced().rewound().flag == PlaybackFlag::Playing,
{
    let there = state.advanced();
    let back = there.rewound();
    assert(there.history =~= seq![state.current->Some_0] + state.history);
    assert(back.queue =~= state.queue);
    assert(back.history =~= state.history);
}

/// Rewinding and then advancing brings back the current track, the queue,
/// the history and the active backend, and leaves the player playing. It
/// holds where there is a track to rewind to and a current track to come
/// back to.
pub proof fn rewind_then_advance(state: PlayerView)
    requires
        state.wf(),
        state.history.len() > 0,
        state.current is Some,
    ensures
        state.rewound().advanced().same_tracks(state),
        state.rewound().advanced().flag == PlaybackFlag::Playing,
{
    let there = state.rewound();
    let back = there.advanced();
    assert(there.queue =~= seq![state.current->Some_0] + state.queue);
    assert(back.queue =~= state.queue);
    assert(back.history =~= state.history);
}

/// Advancing and rewinding look only at the tracks: from two states that
/// agree on them they lead to two states that agree on them.
pub proof fn moves_respect_same_tracks(a: PlayerView, b: PlayerView)
    requires
        a.same_tracks(b),
    ensures
        a.advanced().same_tracks(b.advanced()),
        a.rewound().same_tracks(b.rewound()),
{
}

/// Advancing keeps a well-formed state well formed, makes a track current
/// where the queue held one, and takes exactly one track off the queue.
pub proof fn advance_takes_one(state: PlayerView)
    requires
        state.wf(),
        state.queue.len() > 0,
    ensures
        state.advanced().wf(),
        state.advanced().current is Some,
        state.advanced().queue.len() == state.queue.len() - 1,
{
}

/// Any number of advances, followed by as many rewinds, brings back the
/// current track, the queue, the history and the active backend. It holds
/// where the queue has that many tracks and there is a current track to come
/// back to.
pub proof fn advances_then_rewinds(state: PlayerView, n: nat)
    requires
        state.wf(),
        n <= state.queue.len(),
        state.current is Some,
    ensures
        state.advanced_by(n).rewound_by(n).same_tracks(state),
    decreases n,
{
    if n > 0 {
        let next = state.advanced();
        let m = (n - 1) as nat;
        advance_takes_one(state);
        advances_then_rewinds(next, m);
        let inner = next.advanced_by(m).rewound_by(m);
        assert(state.advanced_by(n) == next.advanced_by(m));
        assert(state.advanced_by(n).rewound_by(n) == inner.rewound());
        moves_respect_same_tracks(inner, next);
        advance_then_rewind(state);
    }
}

/// Repeated advances play the queue in the order in which it was filled:
/// after `k + 1` advances the current track is the one that stood at
/// position `k` of the queue.
pub proof fn advances_play_in_order(state: PlayerView, k: nat)
    requires
        k < state.queue.len(),
    ensures
        state.advanced_by(k + 1).current == Some(state.queue[k as int]),
        state.advanced_by(k + 1).queue == state.queue.skip(k + 1 as int),
    decreases k,
{
    let next = state.advanced();
    assert(state.advanced_by(k + 1) == next.advanced_by(k));
    if k == 0 {
        assert(next.advanced_by(0) == next);
        assert(next.queue =~= state.queue.skip(1));
    } else {
        advances_play_in_order(next, (k - 1) as nat);
        assert(next.queue.skip(k as int) =~= state.queue.skip(k + 1 as int));
    }
}

/// A track put on the queue is played after all that were queued before
/// it: with `n` tracks waiting, it becomes current at advance `n + 1`, and
/// the queue is empty then.
pub proof fn enqueued_plays_last(state: PlayerView, track: TrackView)
    ensures
        state.enqueued(track).advanced_by(state.queue.len() + 1).current == Some(track),
        state.enqueued(track).advanced_by(state.queue.len() + 1).queue.len() == 0,
        forall|k: nat|
            k < state.queue.len() ==> #[trigger] state.enqueued(track).advanced_by(k + 1).current
                == Some(state.queue[k as int]),
{
    let filled = state.enqueued(track);
    advances_play_in_order(filled, state.queue.len());
    assert forall|k: nat| k < state.queue.len() implies #[trigger] filled.advanced_by(
        k + 1,
    ).current == Some(state.queue[k as int]) by {
        advances_play_in_order(filled, k);
    }
}

/// Pausing and then resuming leaves the current track and the active
/// backend as they were, and the player playing.
pub proof fn pause_then_resume(state: PlayerView)
    ensures
        state.paused().resumed() == (PlayerView { flag: PlaybackFlag::Playing, ..state }),
        state.paused().resumed().current == state.current,
        state.paused().resumed().active == state.active,
        state.paused().resumed().flag == PlaybackFlag::Playing,
{
}

/// Advancing on an empty queue changes nothing and is no error, whatever
/// outcome is handed in; so does rewinding on an empty history.
pub proof fn nothing_to_move_to(state: PlayerView, outcome: Result<(), BackendFailure>)
    ensures
        state.queue.len() == 0 ==> state.step(RequestView::Advance, outcome) == state
            && state.verdict(RequestView::Advance, outcome) is Ok,
        state.history.len() == 0 ==> state.step(RequestView::Rewind, outcome) == state
            && state.verdict(RequestView::Rewind, outcome) is Ok,
{
}

/// A track that ends while the queue is empty leaves the player idle,
/// never playing, from whatever state and with whatever outcome.
pub proof fn end_on_empty_queue_is_idle(state: PlayerView, outcome: Result<(), BackendFailure>)
    requires
        state.queue.len() == 0,
    ensures
        state.step(RequestView::TrackEnded, outcome).state() == PlayerState::Idle,
        state.step(RequestView::TrackEnded, outcome).queue == state.queue,
        state.step(RequestView::TrackEnded, outcome).history == state.history,
        state.verdict(RequestView::TrackEnded, outcome) is Ok,
{
}

/// A current track is lost in one way only: it ends while the queue is
/// empty. Every other transition from a state with a current track leads to
/// a state with one.
pub proof fn current_is_lost_only_at_the_end(
    state: PlayerView,
    request: RequestView,
    outcome: Result<(), BackendFailure>,
)
    requires
        state.current is Some,
        state.step(request, outcome).current is None,
    ensures
        request is TrackEnded,
        state.queue.len() == 0,
{
}

/// Putting a track on the queue shows nothing new: the snapshot stays as
/// it was, and so do the history and the tracks that were waiting already.
pub proof fn enqueue_shows_nothing(state: PlayerView, track: TrackView)
    ensures
        state.enqueued(track).snapshot() == state.snapshot(),
        state.enqueued(track).history == state.history,
        state.enqueued(track).queue.len() == state.queue.len() + 1,
        state.enqueued(track).queue.take(state.queue.len() as int) == state.queue,
        state.enqueued(track).queue.last() == track,
{
    assert(state.enqueued(track).queue.take(state.queue.len() as int) =~= state.queue);
}

/// A request whose command fails gives the media control surface nothing
/// to show, and an absent surface is never told anything.
pub proof fn failure_tells_the_mirror_nothing(
    mirror: Mirror,
    state: PlayerView,
    request: RequestView,
    failure: BackendFailure,
    other: PlayerView,
)
    requires
        state.command(request) is Some,
    ensures
        mirror.planned(state.snapshot(), state.step(request, Err(failure)).snapshot()) is None,
        !mirror.attached ==> mirror.planned(state.snapshot(), other.snapshot()) is None,
{
}

/// Once a track has started, its backend is the active one; and while the
/// streaming backend is active no timer tick ends the track, whatever the
/// local sink reports.
pub proof fn started_track_owns_the_output(
    state: PlayerView,
    track: TrackView,
    sink_empty: bool,
)
    ensures
        state.played(track).current == Some(track),
        state.played(track).active == track.uri.platform(),
        state.played(track).state() == PlayerState::Playing(track.uri.platform()),
        track.uri.platform() == Platform::Spotify ==> !state.played(track).tick_ends_track(
            sink_empty,
        ),
{
}

} // verus!
