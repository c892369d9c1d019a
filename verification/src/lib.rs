//! The control core of a terminal music player that plays from two sources:
//! a remote streaming service and locally fetched audio files.
//!
//! Everything here is a pure function of plain values. The surrounding
//! program performs the input and output (keys, timers, network, audio) and
//! feeds the outcomes back in; this crate decides what is playing, which
//! backend owns the output device, and what the queue and history hold.

pub mod catalog;
pub mod command;
pub mod error;
pub mod event;
pub mod json;
pub mod laws;
pub mod mirror;
pub mod player;
pub mod track;
pub mod ui;
pub mod youtube;

pub use catalog::{CatalogTrack, CatalogTrackView, LibraryPager, Page, PagerView};
pub use command::{Command, CommandView};
pub use error::{BackendFailure, Error};
pub use event::{ControlRequest, Event, Key, PlayerNotice};
pub use mirror::{Mirror, MirrorPlayback, MirrorUpdate, MirrorUpdateView};
pub use player::{
    BackendCommand, BackendCommandView, PlaybackFlag, Player, PlayerState, PlayerView, Request,
    RequestView, Snapshot, SnapshotView,
};
pub use track::{Platform, Track, TrackView, Uri, UriView};
pub use ui::{InputMode, Intent, IntentView, Lookup, LookupView, StatefulList, Ui, UiView};
pub use youtube::{Download, DownloadView, YoutubeResult, YoutubeResultView};
