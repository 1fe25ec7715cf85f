//! Why the health endpoint ended.

use vstd::prelude::*;
use vstd::string::*;

verus! {

/// The end of the health endpoint.
#[derive(Debug, PartialEq, Eq)]
pub enum Error {
    /// The port could not be bound; the text is the operating system's
    /// report.
    PortBindingFailed(String),
    /// Cancellation was observed.
    Terminated,
}

impl Error {
    /// The text shown for this error.
    pub open spec fn message_text(self) -> Seq<char> {
        match self {
            Error::PortBindingFailed(report) => "Failed to start the server ("@ + report@ + ")"@,
            Error::Terminated => "Terminated"@,
        }
    }

    /// Renders the error for logs.
    pub fn message(&self) -> (text: String)
        ensures
            text@ == self.message_text(),
    {
        match self {
            Error::PortBindingFailed(report) => String::from_str(
                "Failed to start the server (",
            ).concat(report.as_str()).concat(")"),
            Error::Terminated => String::from_str("Terminated"),
        }
    }
}

} // verus!
