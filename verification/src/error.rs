//! Failures that reach the entry point of the process.

use vstd::prelude::*;
use vstd::std_specs::convert::FromSpecImpl;
use vstd::string::*;

verus! {

/// A failure that the entry point reports before it leaves.
#[derive(Debug, PartialEq, Eq)]
pub enum Error {
    /// The pipeline could not be set up: the directory, the disk or the
    /// port is not to be had. The text says which.
    InitializationError(String),
    /// The pipeline did not wind down in order.
    TerminationError,
    /// A message between two parts of the pipeline was lost.
    CommunicationError,
    /// The operating system refused an operation; the text is its report.
    IoError(String),
}

impl Error {
    /// The text shown for this error.
    pub open spec fn message_text(self) -> Seq<char> {
        match self {
            Error::InitializationError(message) => "Initialization error: "@ + message@,
            Error::TerminationError => "Termination error"@,
            Error::CommunicationError => "Communication error"@,
            Error::IoError(report) => "I/O error: "@ + report@,
        }
    }

    /// Renders the error for the process's last words.
    pub fn message(&self) -> (text: String)
        ensures
            text@ == self.message_text(),
    {
        match self {
            Error::InitializationError(message) => String::from_str(
                "Initialization error: ",
            ).concat(message.as_str()),
            Error::TerminationError => String::from_str("Termination error"),
            Error::CommunicationError => String::from_str("Communication error"),
            Error::IoError(report) => String::from_str("I/O error: ").concat(report.as_str()),
        }
    }

    /// Whether the failure keeps the pipeline from starting at all.
    pub fn is_fatal_at_startup(&self) -> (fatal: bool)
        ensures
            fatal == (self is InitializationError || self is IoError),
    {
        match self {
            Error::InitializationError(_) => true,
            Error::IoError(_) => true,
            _ => false,
        }
    }
}

impl From<String> for Error {
    /// A bare text stands for a message that was lost on its way.
    fn from(message: String) -> (error: Error) {
        Error::CommunicationError
    }
}

impl FromSpecImpl<String> for Error {
    open spec fn obeys_from_spec() -> bool {
        true
    }

    open spec fn from_spec(message: String) -> Error {
        Error::CommunicationError
    }
}

impl From<&str> for Error {
    /// A bare text stands for a message that was lost on its way.
    fn from(message: &str) -> (error: Error) {
        Error::CommunicationError
    }
}

impl FromSpecImpl<&str> for Error {
    open spec fn obeys_from_spec() -> bool {
        true
    }

    open spec fn from_spec(message: &str) -> Error {
        Error::CommunicationError
    }
}

} // verus!
