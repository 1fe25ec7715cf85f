//! Why the command line was refused.

use vstd::prelude::*;
use vstd::string::*;

verus! {

/// A fault in the command line.
#[derive(Debug, PartialEq, Eq)]
pub enum Error {
    /// The arguments do not come in pairs of a name and a value.
    CommandLineCorrupted,
    /// The records directory is not given.
    PathOmitted,
    /// The stream URL is not given.
    UrlOmitted,
    /// The name of an argument does not begin with two dashes.
    ArgumentPrefixCorrupted(String),
    /// The name of an argument is not one that is known.
    ArgumentInvalid(String),
    /// The value given for the URL is not a URL.
    UrlInvalid(String),
    /// The value given for the port is not a port number.
    PortInvalid(String),
    /// The value given for the timeout is not a positive number of seconds.
    TimeoutInvalid(String),
}

/// The mathematical content of an [`Error`].
pub enum ErrorView {
    CommandLineCorrupted,
    PathOmitted,
    UrlOmitted,
    ArgumentPrefixCorrupted(Seq<char>),
    ArgumentInvalid(Seq<char>),
    UrlInvalid(Seq<char>),
    PortInvalid(Seq<char>),
    TimeoutInvalid(Seq<char>),
}

impl View for Error {
    type V = ErrorView;

    open spec fn view(&self) -> ErrorView {
        match self {
            Error::CommandLineCorrupted => ErrorView::CommandLineCorrupted,
            Error::PathOmitted => ErrorView::PathOmitted,
            Error::UrlOmitted => ErrorView::UrlOmitted,
            Error::ArgumentPrefixCorrupted(prefix) => ErrorView::ArgumentPrefixCorrupted(prefix@),
            Error::ArgumentInvalid(argument) => ErrorView::ArgumentInvalid(argument@),
            Error::UrlInvalid(url) => ErrorView::UrlInvalid(url@),
            Error::PortInvalid(port) => ErrorView::PortInvalid(port@),
            Error::TimeoutInvalid(timeout) => ErrorView::TimeoutInvalid(timeout@),
        }
    }
}

impl ErrorView {
    /// The text shown for this error.
    pub open spec fn message_text(self) -> Seq<char> {
        match self {
            ErrorView::CommandLineCorrupted => "Command line is corrupted"@,
            ErrorView::PathOmitted => "Mandatory `path` argument is omitted"@,
            ErrorView::UrlOmitted => "Mandatory `url` argument is omitted"@,
            ErrorView::ArgumentPrefixCorrupted(prefix) => "Argument prefix is corrupted: "@
                + prefix,
            ErrorView::ArgumentInvalid(argument) => "Argument is invalid: "@ + argument,
            ErrorView::UrlInvalid(url) => "URL is invalid: "@ + url,
            ErrorView::PortInvalid(port) => "Port is invalid: "@ + port,
            ErrorView::TimeoutInvalid(timeout) => "Timeout is invalid: "@ + timeout,
        }
    }
}

impl Error {
    /// Renders the error for the user.
    pub fn message(&self) -> (text: String)
        ensures
            text@ == self@.message_text(),
    {
        match self {
            Error::CommandLineCorrupted => String::from_str("Command line is corrupted"),
            Error::PathOmitted => String::from_str("Mandatory `path` argument is omitted"),
            Error::UrlOmitted => String::from_str("Mandatory `url` argument is omitted"),
            Error::ArgumentPrefixCorrupted(prefix) => String::from_str(
                "Argument prefix is corrupted: ",
            ).concat(prefix.as_str()),
            Error::ArgumentInvalid(argument) => String::from_str("Argument is invalid: ").concat(
                argument.as_str(),
            ),
            Error::UrlInvalid(url) => String::from_str("URL is invalid: ").concat(url.as_str()),
            Error::PortInvalid(port) => String::from_str("Port is invalid: ").concat(
                port.as_str(),
            ),
            Error::TimeoutInvalid(timeout) => String::from_str("Timeout is invalid: ").concat(
                timeout.as_str(),
            ),
        }
    }
}

} // verus!
