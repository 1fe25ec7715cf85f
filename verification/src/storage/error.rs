//! Failures of the storage layer.

use vstd::prelude::*;
use vstd::string::*;

verus! {

/// Why the storage layer could not be set up or used.
#[derive(Debug, PartialEq, Eq)]
pub enum Error {
    /// No mounted filesystem hosts the recordings directory.
    ActiveDiskDetectionFailed,
    /// The operating system refused a file operation; the text is its report.
    OperationFailed(String),
}

impl Error {
    /// The text shown for this error.
    pub open spec fn message_text(self) -> Seq<char> {
        match self {
            Error::ActiveDiskDetectionFailed =>
                "Could not detect an active disk for the provided path"@,
            Error::OperationFailed(report) => "I/O operation failed: "@ + report@,
        }
    }

    /// Renders the error for logs and for the process's last words.
    pub fn message(&self) -> (text: String)
        ensures
            text@ == self.message_text(),
    {
        match self {
            Error::ActiveDiskDetectionFailed => String::from_str(
                "Could not detect an active disk for the provided path",
            ),
            Error::OperationFailed(report) => String::from_str("I/O operation failed: ").concat(
                report.as_str(),
            ),
        }
    }
}

} // verus!
