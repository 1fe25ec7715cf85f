//! The configuration handed to the pipeline, and the reading of its parts
//! from text.

pub mod command_line_parser;
pub mod error;

use crate::settings::error::{Error, ErrorView};
use core::num::ParseIntError;
use vstd::prelude::*;
use vstd::string::*;

verus! {

/// Whether `c` is one of the ten decimal digits.
pub open spec fn is_digit(c: char) -> bool {
    '0' <= c <= '9'
}

/// The number that the decimal digits `digits` write.
pub open spec fn digits_value(digits: Seq<char>) -> nat
    decreases digits.len(),
{
    if digits.len() == 0 {
        0
    } else {
        digits_value(digits.drop_last()) * 10 + (digits.last() as u32 - '0' as u32) as nat
    }
}

/// The number that `text` writes in decimal: an optional plus sign followed
/// by one or more decimal digits and nothing else. Any other text writes no
/// number.
pub open spec fn decimal_value(text: Seq<char>) -> Option<nat> {
    let digits = unsigned(text);
    if digits.len() > 0 && all_digits(digits) {
        Some(digits_value(digits))
    } else {
        None
    }
}

/// `text` without the plus sign it may begin with.
pub open spec fn unsigned(text: Seq<char>) -> Seq<char> {
    if text.len() > 0 && text[0] == '+' {
        text.skip(1)
    } else {
        text
    }
}

/// Whether every character of `digits` is a decimal digit.
pub open spec fn all_digits(digits: Seq<char>) -> bool {
    forall|i: int| 0 <= i < digits.len() ==> is_digit(#[trigger] digits[i])
}

/// Whether `text` writes a timeout: a decimal number of whole seconds that
/// is not zero and fits `u64`.
pub open spec fn is_timeout(text: Seq<char>) -> bool {
    match decimal_value(text) {
        Some(number) => 0 < number <= u64::MAX,
        None => false,
    }
}

/// Why a text is not a number of the wanted kind.
#[verifier::external_type_specification]
#[verifier::external_body]
pub struct ExParseIntError(ParseIntError);

/// `str::parse::<u64>()`: succeeds exactly on an optional plus sign followed
/// by decimal digits whose number fits `u64`, and then yields that number.
/// Empty text, any other character (a minus sign, a blank, an underscore)
/// and a number that is too large are errors. Nothing is claimed of the
/// error value.
#[verifier::external_body]
pub(crate) fn parse_u64(text: &str) -> (parsed: Result<u64, ParseIntError>)
    ensures
        match parsed {
            Ok(number) => decimal_value(text@) == Some(number as nat),
            Err(_) => match decimal_value(text@) {
                Some(number) => number > u64::MAX,
                None => true,
            },
        },
{
    text.parse::<u64>()
}

/// The configuration of one capture. The timeout is never zero.
#[derive(Debug, PartialEq, Eq)]
pub struct Settings {
    stream_url: String,
    stream_timeout: u64,
    records_path: String,
    monitor_port_number: u16,
}

/// The mathematical content of [`Settings`].
pub struct SettingsView {
    /// The URL of the stream to capture.
    pub stream_url: Seq<char>,
    /// Seconds allowed to a connect and to a read, and to wait between two
    /// attempts.
    pub stream_timeout: u64,
    /// The directory that receives the files.
    pub records_path: Seq<char>,
    /// The port of the health endpoint.
    pub monitor_port_number: u16,
}

impl SettingsView {
    /// The timeout is positive.
    pub open spec fn wf(self) -> bool {
        self.stream_timeout > 0
    }

    /// The timeout in milliseconds, held at `u64::MAX` where the seconds do
    /// not fit.
    pub open spec fn timeout_millis(self) -> u64 {
        if self.stream_timeout * 1000 > u64::MAX {
            u64::MAX
        } else {
            (self.stream_timeout * 1000) as u64
        }
    }
}

impl View for Settings {
    type V = SettingsView;

    closed spec fn view(&self) -> SettingsView {
        SettingsView {
            stream_url: self.stream_url@,
            stream_timeout: self.stream_timeout,
            records_path: self.records_path@,
            monitor_port_number: self.monitor_port_number,
        }
    }
}

impl Settings {
    #[verifier::type_invariant]
    spec fn positive_timeout(self) -> bool {
        self.stream_timeout > 0
    }

    /// Puts a configuration together. A timeout of zero seconds is refused:
    /// with it no connect and no read could complete, and no pause would
    /// separate two attempts.
    pub fn new(
        stream_url: String,
        stream_timeout: u64,
        records_path: String,
        monitor_port_number: u16,
    ) -> (settings: Result<Settings, Error>)
        ensures
            match settings {
                Ok(settings) => {
                    &&& stream_timeout > 0
                    &&& settings@.wf()
                    &&& settings@ == (SettingsView {
                        stream_url: stream_url@,
                        stream_timeout,
                        records_path: records_path@,
                        monitor_port_number,
                    })
                },
                Err(error) => stream_timeout == 0 && error@ == ErrorView::TimeoutInvalid("0"@),
            },
    {
        if stream_timeout == 0 {
            Err(Error::TimeoutInvalid(String::from_str("0")))
        } else {
            Ok(Settings { stream_url, stream_timeout, records_path, monitor_port_number })
        }
    }

    /// The URL of the stream to capture.
    pub fn stream_url(&self) -> (url: &String)
        ensures
            url@ == self@.stream_url,
    {
        &self.stream_url
    }

    /// Seconds allowed to a connect and to a read, and to wait between two
    /// attempts; never zero.
    pub fn stream_timeout(&self) -> (seconds: u64)
        ensures
            seconds == self@.stream_timeout,
            seconds > 0,
            self@.wf(),
    {
        proof {
            use_type_invariant(self);
        }
        self.stream_timeout
    }

    /// The directory that receives the files.
    pub fn records_path(&self) -> (path: &String)
        ensures
            path@ == self@.records_path,
    {
        &self.records_path
    }

    /// The port of the health endpoint.
    pub fn monitor_port_number(&self) -> (port: u16)
        ensures
            port == self@.monitor_port_number,
    {
        self.monitor_port_number
    }

    /// The timeout in milliseconds, as the listener takes it; never zero.
    pub fn timeout_millis(&self) -> (millis: u64)
        ensures
            millis == self@.timeout_millis(),
            millis > 0,
    {
        proof {
            use_type_invariant(self);
        }
        match self.stream_timeout.checked_mul(1000) {
            Some(millis) => millis,
            None => u64::MAX,
        }
    }
}

/// Reads a timeout in whole seconds from `seconds`. Succeeds exactly when
/// `seconds` writes a decimal number that is not zero and fits `u64`, and
/// yields it; any other text is refused as an invalid timeout.
pub fn get_duration(seconds: &str) -> (duration: Result<u64, Error>)
    ensures
        match duration {
            Ok(number) => {
                &&& is_timeout(seconds@)
                &&& number > 0
                &&& decimal_value(seconds@) == Some(number as nat)
            },
            Err(error) => {
                &&& !is_timeout(seconds@)
                &&& error@ == ErrorView::TimeoutInvalid(seconds@)
            },
        },
{
    match parse_u64(seconds) {
        Ok(number) => {
            if number > 0 {
                Ok(number)
            } else {
                Err(Error::TimeoutInvalid(String::from_str(seconds)))
            }
        },
        Err(_) => Err(Error::TimeoutInvalid(String::from_str(seconds))),
    }
}

} // verus!
