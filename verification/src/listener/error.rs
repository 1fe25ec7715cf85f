//! Why a connection attempt ended.

use vstd::prelude::*;
use vstd::string::*;

verus! {

/// The end of one connection attempt. Only `Terminated` ends the listener;
/// every other variant is followed by a pause and another attempt.
#[derive(Debug, Clone, Copy, PartialEq, Eq, Structural)]
pub enum Error {
    /// Cancellation was observed.
    Terminated,
    /// The source could not be reached, or answered with an unusable status.
    ConnectionFailed,
    /// Reading failed in the middle of the stream.
    StreamCorrupted,
    /// The stream came to its end.
    StreamEmpty,
    /// No chunk arrived within the timeout.
    StreamElapsed,
}

impl Error {
    /// Whether another attempt follows.
    pub open spec fn recoverable(self) -> bool {
        self != Error::Terminated
    }

    /// Whether another attempt follows.
    pub fn is_recoverable(&self) -> (recoverable: bool)
        ensures
            recoverable == self.recoverable(),
    {
        match self {
            Error::Terminated => false,
            _ => true,
        }
    }

    /// The text shown for this error.
    pub open spec fn message_text(self) -> Seq<char> {
        match self {
            Error::Terminated => "Terminated"@,
            Error::ConnectionFailed => "Connection failed"@,
            Error::StreamCorrupted => "Stream is corrupted"@,
            Error::StreamEmpty => "Stream is empty"@,
            Error::StreamElapsed => "Stream reading timeout"@,
        }
    }

    /// Renders the error for logs.
    pub fn message(&self) -> (text: String)
        ensures
            text@ == self.message_text(),
    {
        match self {
            Error::Terminated => String::from_str("Terminated"),
            Error::ConnectionFailed => String::from_str("Connection failed"),
            Error::StreamCorrupted => String::from_str("Stream is corrupted"),
            Error::StreamEmpty => String::from_str("Stream is empty"),
            Error::StreamElapsed => String::from_str("Stream reading timeout"),
        }
    }
}

} // verus!
