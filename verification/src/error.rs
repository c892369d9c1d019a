//! What can go wrong, and how it is reported.

use vstd::prelude::*;
use serde_json::Error as JsonError;

verus! {

/// Why a backend could not carry out a command.
#[derive(Clone, Copy, Debug, PartialEq, Eq, Structural)]
pub enum BackendFailure {
    /// The backend or its output device refused the command.
    Unavailable,
    /// The audio could not be fetched to a local file.
    Fetch,
    /// The fetched audio could not be decoded.
    Decode,
}

#[derive(Debug)]
pub enum Error {
    /// Every event producer has gone; the only fatal condition.
    InputClosed,
    /// A backend refused a transport command; the player state is unchanged.
    BackendPlayFailed,
    /// The local backend could not fetch the audio; state unchanged.
    FetchFailed,
    /// The local backend could not decode the audio; state unchanged.
    DecodeFailed,
    /// The media control surface could not be updated; never fatal.
    ControllerSyncFailed,
    /// A document that should have been JSON was not.
    SerdeJson(JsonError),
    Other(String),
}

impl Error {
    /// The error that reports a backend failure.
    pub open spec fn of_failure(failure: BackendFailure) -> Error {
        match failure {
            BackendFailure::Unavailable => Error::BackendPlayFailed,
            BackendFailure::Fetch => Error::FetchFailed,
            BackendFailure::Decode => Error::DecodeFailed,
        }
    }

    /// The status line that tells the user of this error.
    pub open spec fn status(&self) -> Seq<char> {
        match self {
            Error::InputClosed => "Input closed."@,
            Error::BackendPlayFailed => "The backend could not play."@,
            Error::FetchFailed => "The audio could not be fetched."@,
            Error::DecodeFailed => "The audio could not be decoded."@,
            Error::ControllerSyncFailed => "The media controls could not be updated."@,
            Error::SerdeJson(_) => "The answer was no JSON."@,
            Error::Other(text) => text@,
        }
    }

    /// The error that reports a backend failure.
    pub fn from_failure(failure: BackendFailure) -> (error: Error)
        ensures
            error == Error::of_failure(failure),
    {
        match failure {
            BackendFailure::Unavailable => Error::BackendPlayFailed,
            BackendFailure::Fetch => Error::FetchFailed,
            BackendFailure::Decode => Error::DecodeFailed,
        }
    }

    /// The status line that tells the user of this error.
    pub fn message(&self) -> (text: String)
        ensures
            text@ == self.status(),
    {
        match self {
            Error::InputClosed => String::from_str("Input closed."),
            Error::BackendPlayFailed => String::from_str("The backend could not play."),
            Error::FetchFailed => String::from_str("The audio could not be fetched."),
            Error::DecodeFailed => String::from_str("The audio could not be decoded."),
            Error::ControllerSyncFailed => String::from_str(
                "The media controls could not be updated.",
            ),
            Error::SerdeJson(_) => String::from_str("The answer was no JSON."),
            Error::Other(text) => text.clone(),
        }
    }

    /// Whether the consumer loop must end on this error. Only a closed
    /// input does that; every other error becomes a status line.
    pub fn is_fatal(&self) -> (fatal: bool)
        ensures
            fatal == (*self is InputClosed),
    {
        match self {
            Error::InputClosed => true,
            _ => false,
        }
    }
}

} // verus!
