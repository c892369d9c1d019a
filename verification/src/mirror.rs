//! The media control surface of the operating system, kept in step with
//! the player.
//!
//! The surface is told after the fact, and only when something changed that
//! it shows. Telling it may fail; that is reported and changes nothing in
//! the player. Where no surface could be set up, nothing is told at all.

use vstd::prelude::*;
use crate::error::Error;
use crate::player::{PlaybackFlag, Snapshot, SnapshotView};

verus! {

/// What the control surface shows of the playback.
#[derive(Clone, Copy, Debug, PartialEq, Eq, Structural)]
pub enum MirrorPlayback {
    Playing,
    Paused,
    Stopped,
}

impl SnapshotView {
    /// What the control surface shows for this state: stopped where nothing
    /// is current, else what the flag says.
    pub open spec fn playback(self) -> MirrorPlayback {
        match (self.current, self.flag) {
            (None, _) => MirrorPlayback::Stopped,
            (Some(_), PlaybackFlag::Playing) => MirrorPlayback::Playing,
            (Some(_), PlaybackFlag::Paused) => MirrorPlayback::Paused,
        }
    }

    /// Title and artist of the current track.
    pub open spec fn metadata(self) -> Option<(Seq<char>, Seq<char>)> {
        match self.current {
            Some(track) => Some((track.name, track.artist)),
            None => None,
        }
    }
}

/// What the control surface is told.
#[derive(Debug)]
pub struct MirrorUpdate {
    pub playback: MirrorPlayback,
    /// Title and artist of the current track, where there is one.
    pub metadata: Option<(String, String)>,
}

/// The mathematical value of a [`MirrorUpdate`].
pub struct MirrorUpdateView {
    pub playback: MirrorPlayback,
    pub metadata: Option<(Seq<char>, Seq<char>)>,
}

impl View for MirrorUpdate {
    type V = MirrorUpdateView;

    open spec fn view(&self) -> MirrorUpdateView {
        MirrorUpdateView {
            playback: self.playback,
            metadata: match self.metadata {
                Some((title, artist)) => Some((title@, artist@)),
                None => None,
            },
        }
    }
}

/// What an attached control surface is told when the player has gone from
/// `before` to `after`: nothing where neither the flag nor the current
/// track has changed, else the new playback state and, where a track is
/// current, its title and artist.
pub open spec fn update_for(before: SnapshotView, after: SnapshotView) -> Option<
    MirrorUpdateView,
> {
    if before.flag == after.flag && before.current == after.current {
        None
    } else {
        Some(MirrorUpdateView { playback: after.playback(), metadata: after.metadata() })
    }
}

impl Snapshot {
    /// Whether two snapshots show the same current track.
    fn same_current(&self, other: &Snapshot) -> (same: bool)
        ensures
            same == (self@.current == other@.current),
    {
        match (&self.current, &other.current) {
            (None, None) => true,
            (Some(mine), Some(theirs)) => mine.same(theirs),
            _ => false,
        }
    }

    pub fn playback(&self) -> (playback: MirrorPlayback)
        ensures
            playback == self@.playback(),
    {
        match (&self.current, self.flag) {
            (None, _) => MirrorPlayback::Stopped,
            (Some(_), PlaybackFlag::Playing) => MirrorPlayback::Playing,
            (Some(_), PlaybackFlag::Paused) => MirrorPlayback::Paused,
        }
    }
}

/// The control surface as the player knows it: attached, or absent because
/// it could not be set up.
#[derive(Clone, Copy, Debug, PartialEq, Eq, Structural)]
pub struct Mirror {
    pub attached: bool,
}

impl Mirror {
    /// The mirror of a control surface that was set up, or of one that
    /// could not be.
    pub fn new(attached: bool) -> (mirror: Mirror)
        ensures
            mirror.attached == attached,
    {
        Mirror { attached }
    }

    /// What this control surface is told when the player has gone from
    /// `before` to `after`: an absent surface nothing, an attached one what
    /// [`update_for`] says.
    pub open spec fn planned(self, before: SnapshotView, after: SnapshotView) -> Option<
        MirrorUpdateView,
    > {
        if self.attached {
            update_for(before, after)
        } else {
            None
        }
    }

    /// What the control surface must be told now that the player has gone
    /// from `before` to `after`. An absent surface is told nothing.
    pub fn plan(&self, before: &Snapshot, after: &Snapshot) -> (update: Option<MirrorUpdate>)
        ensures
            update is Some <==> self.planned(before@, after@) is Some,
            update matches Some(told) ==> self.planned(before@, after@) == Some(told@),
    {
        if !self.attached {
            return None;
        }
        let same_flag = match (before.flag, after.flag) {
            (PlaybackFlag::Playing, PlaybackFlag::Playing) => true,
            (PlaybackFlag::Paused, PlaybackFlag::Paused) => true,
            _ => false,
        };
        if same_flag && before.same_current(after) {
            return None;
        }
        let metadata = match &after.current {
            Some(track) => Some((track.name().clone(), track.artist().clone())),
            None => None,
        };
        Some(MirrorUpdate { playback: after.playback(), metadata })
    }

    /// What is reported after the control surface was told: nothing where
    /// it took the update, else the error that says so. The player is not
    /// touched either way.
    pub fn report(accepted: bool) -> (report: Option<Error>)
        ensures
            accepted ==> report is None,
            !accepted ==> report == Some(Error::ControllerSyncFailed),
    {
        if accepted {
            None
        } else {
            Some(Error::ControllerSyncFailed)
        }
    }
}

} // verus!
