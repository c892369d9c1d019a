//! The events that the consumer loop handles, and how what the producers
//! see is turned into them.
//!
//! Four producers feed one stream: the keyboard, a timer, the streaming
//! backend's notifications and the media control surface of the operating
//! system. The stream hands the events on in the order of their arrival.

use vstd::prelude::*;
use crate::error::Error;
use crate::track::Uri;

verus! {

/// Milliseconds between two timer ticks.
pub const TICK_MILLIS: u64 = 250;

#[derive(Debug)]
pub enum Event<I> {
    Input(I),
    Tick,
    /// The streaming backend plays the referenced track now.
    UpdateNP(Uri),
    /// The streaming backend has played its track to the end.
    TrackEnded,
    /// The media control surface asks for a pause.
    PleasePause,
    /// The media control surface asks to go on playing.
    PleaseResume,
}

/// A key press, as far as the player tells keys apart.
#[derive(Clone, Copy, Debug, PartialEq, Eq, Structural)]
pub enum Key {
    Char(char),
    Up,
    Down,
    Backspace,
    Esc,
    /// Any other key.
    Other,
}

/// What the streaming backend reports about itself.
#[derive(Debug)]
pub enum PlayerNotice {
    Stopped,
    /// Playback of the referenced track has started.
    Started(Uri),
    /// The backend has gone over to the referenced track.
    Changed(Uri),
    Loading,
    Preloading,
    Playing,
    Paused,
    TimeToPreloadNextTrack,
    EndOfTrack,
    Unavailable,
    VolumeSet,
}

/// What the media control surface of the operating system asks for.
#[derive(Clone, Copy, Debug, PartialEq, Eq, Structural)]
pub enum ControlRequest {
    Play,
    Pause,
    Toggle,
    Next,
    Previous,
    Stop,
    Seek,
    SeekBy,
    SetPosition,
    OpenUri,
    Raise,
    Quit,
}

/// The event that a notice of the streaming backend amounts to.
pub open spec fn notice_event<I>(notice: PlayerNotice) -> Option<Event<I>> {
    match notice {
        PlayerNotice::Started(uri) => Some(Event::UpdateNP(uri)),
        PlayerNotice::Changed(uri) => Some(Event::UpdateNP(uri)),
        PlayerNotice::EndOfTrack => Some(Event::TrackEnded),
        _ => None,
    }
}

/// The event that a request of the media control surface amounts to.
pub open spec fn control_event<I>(request: ControlRequest) -> Option<Event<I>> {
    match request {
        ControlRequest::Play => Some(Event::PleaseResume),
        ControlRequest::Pause => Some(Event::PleasePause),
        _ => None,
    }
}

/// Turns a notice of the streaming backend into an event. A track that
/// starts or takes over updates the now-playing label, the end of a track
/// is handed on, and every other notice is dropped here.
pub fn event_for_notice<I>(notice: PlayerNotice) -> (event: Option<Event<I>>)
    ensures
        event == notice_event::<I>(notice),
{
    match notice {
        PlayerNotice::Started(uri) => Some(Event::UpdateNP(uri)),
        PlayerNotice::Changed(uri) => Some(Event::UpdateNP(uri)),
        PlayerNotice::EndOfTrack => Some(Event::TrackEnded),
        _ => None,
    }
}

/// Turns a request of the media control surface into an event. Play and
/// pause are handed on; every other request is accepted and gives no event.
pub fn event_for_control<I>(request: ControlRequest) -> (event: Option<Event<I>>)
    ensures
        event == control_event::<I>(request),
{
    match request {
        ControlRequest::Play => Some(Event::PleaseResume),
        ControlRequest::Pause => Some(Event::PleasePause),
        _ => None,
    }
}

/// What the consumer is handed when it asks the stream for its next event:
/// the event, or, once every producer has gone and the stream is closed,
/// the error that ends the loop.
pub fn delivered<I>(received: Option<Event<I>>) -> (next: Result<Event<I>, Error>)
    ensures
        match received {
            Some(event) => next == Ok::<Event<I>, Error>(event),
            None => next == Err::<Event<I>, Error>(Error::InputClosed),
        },
{
    match received {
        Some(event) => Ok(event),
        None => Err(Error::InputClosed),
    }
}

} // verus!
