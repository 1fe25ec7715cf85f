use stream_recorder::error::Error as EntryError;
use stream_recorder::settings::command_line_parser::{fetch_argument, fetch_arguments, judge};
use stream_recorder::settings::error::Error;
use stream_recorder::settings::{get_duration, Settings};

fn text(value: &str) -> String {
    value.to_string()
}

fn pair(name: &str, value: &str) -> (String, String) {
    (text(name), text(value))
}

fn arguments(values: &[&str]) -> Vec<String> {
    values.iter().map(|value| value.to_string()).collect()
}

#[test]
fn duration_is_read_in_whole_seconds() {
    assert_eq!(get_duration("5"), Ok(5));
    assert_eq!(get_duration("1"), Ok(1));
    assert_eq!(get_duration("+7"), Ok(7));
    assert_eq!(get_duration("007"), Ok(7));
    assert_eq!(get_duration("86400"), Ok(86_400));
    assert_eq!(get_duration("18446744073709551615"), Ok(u64::MAX));
    assert_eq!(get_duration("00000000000000000000000000000000001"), Ok(1));
}

#[test]
fn duration_of_zero_is_refused() {
    for refused in ["0", "+0", "00", "0000000000000000000000000"] {
        assert_eq!(get_duration(refused), Err(Error::TimeoutInvalid(text(refused))));
    }
}

#[test]
fn duration_refuses_what_is_no_number() {
    for refused in [
        "", "+", "-", "-1", "5s", " 5", "5 ", "1_000", "1.5", "0x10", "five", "abc", "++5", "+-5",
        "18446744073709551616", "99999999999999999999999",
    ] {
        assert_eq!(get_duration(refused), Err(Error::TimeoutInvalid(text(refused))));
    }
}

fn settings(timeout: u64) -> Result<Settings, Error> {
    Settings::new(text("http://radio.example/live"), timeout, text("records"), 3_000)
}

#[test]
fn settings_hold_what_they_were_given() {
    let settings = settings(5).unwrap();
    assert_eq!(settings.stream_url(), "http://radio.example/live");
    assert_eq!(settings.stream_timeout(), 5);
    assert_eq!(settings.records_path(), "records");
    assert_eq!(settings.monitor_port_number(), 3_000);
}

#[test]
fn settings_refuse_a_timeout_of_zero() {
    assert_eq!(settings(0), Err(Error::TimeoutInvalid(text("0"))));
    assert!(settings(1).is_ok());
    assert!(settings(u64::MAX).is_ok());
}

#[test]
fn timeout_is_handed_on_in_milliseconds() {
    assert_eq!(settings(5).unwrap().timeout_millis(), 5_000);
    assert_eq!(settings(1).unwrap().timeout_millis(), 1_000);
    assert_eq!(settings(u64::MAX / 1_000).unwrap().timeout_millis(), u64::MAX / 1_000 * 1_000);
    assert_eq!(settings(u64::MAX / 1_000 + 1).unwrap().timeout_millis(), u64::MAX);
    assert_eq!(settings(u64::MAX).unwrap().timeout_millis(), u64::MAX);
}

#[test]
fn argument_is_a_name_and_a_value() {
    assert_eq!(
        fetch_argument(Some(&text("--path")), Some(&text("records"))),
        Ok(pair("path", "records"))
    );
    assert_eq!(
        fetch_argument(Some(&text("--url")), Some(&text("http://radio.example/live"))),
        Ok(pair("url", "http://radio.example/live"))
    );
    assert_eq!(fetch_argument(Some(&text("--port")), Some(&text("3000"))), Ok(pair("port", "3000")));
    assert_eq!(fetch_argument(Some(&text("--path")), Some(&text(""))), Ok(pair("path", "")));
}

#[test]
fn argument_without_its_half_is_a_corrupted_command_line() {
    assert_eq!(fetch_argument(None, Some(&text("records"))), Err(Error::CommandLineCorrupted));
    assert_eq!(fetch_argument(Some(&text("--path")), None), Err(Error::CommandLineCorrupted));
    assert_eq!(fetch_argument(None, None), Err(Error::CommandLineCorrupted));
}

#[test]
fn argument_name_begins_with_two_dashes() {
    for name in ["path", "-path", "", "-", "—path", "- -path", " --path"] {
        assert_eq!(
            fetch_argument(Some(&text(name)), Some(&text("records"))),
            Err(Error::ArgumentPrefixCorrupted(text(name)))
        );
    }
}

#[test]
fn argument_name_is_one_that_is_known() {
    for (name, bare) in [("--", ""), ("--timeout", "timeout"), ("---path", "-path"), ("--Path", "Path"), ("--paths", "paths")] {
        assert_eq!(
            fetch_argument(Some(&text(name)), Some(&text("records"))),
            Err(Error::ArgumentInvalid(text(bare)))
        );
    }
}

#[test]
fn argument_url_is_a_url() {
    for value in ["", "radio.example/live", "/live", "http//radio", "://x"] {
        assert_eq!(
            fetch_argument(Some(&text("--url")), Some(&text(value))),
            Err(Error::UrlInvalid(text(value)))
        );
    }
    for value in ["http://radio.example/live", "https://radio.example:8000/a?b=c", "ftp://x/y"] {
        assert_eq!(fetch_argument(Some(&text("--url")), Some(&text(value))), Ok(pair("url", value)));
    }
}

#[test]
fn argument_port_is_a_port_number() {
    for value in ["", "-1", "65536", "http", "30 00", "3000.0"] {
        assert_eq!(
            fetch_argument(Some(&text("--port")), Some(&text(value))),
            Err(Error::PortInvalid(text(value)))
        );
    }
    for value in ["0", "3000", "65535", "+80", "00080"] {
        assert_eq!(
            fetch_argument(Some(&text("--port")), Some(&text(value))),
            Ok(pair("port", value))
        );
    }
}

#[test]
fn path_is_not_held_to_the_rules_for_urls_and_ports() {
    assert_eq!(
        fetch_argument(Some(&text("--path")), Some(&text("not a url, not a port"))),
        Ok(pair("path", "not a url, not a port"))
    );
}

#[test]
fn judge_goes_by_what_it_is_told_of_the_value() {
    assert_eq!(judge("--url", "anything", true, false), Ok(pair("url", "anything")));
    assert_eq!(judge("--url", "http://x/", false, true), Err(Error::UrlInvalid(text("http://x/"))));
    assert_eq!(judge("--port", "anything", false, true), Ok(pair("port", "anything")));
    assert_eq!(judge("--port", "80", true, false), Err(Error::PortInvalid(text("80"))));
    assert_eq!(judge("--path", "p", false, false), Ok(pair("path", "p")));
    assert_eq!(judge("path", "p", true, true), Err(Error::ArgumentPrefixCorrupted(text("path"))));
    assert_eq!(judge("--x", "p", true, true), Err(Error::ArgumentInvalid(text("x"))));
}

fn sorted(outcome: Result<Vec<(String, String)>, Error>) -> Result<Vec<(String, String)>, Error> {
    outcome.map(|mut arguments| {
        arguments.sort();
        arguments
    })
}

#[test]
fn arguments_are_read_in_pairs() {
    let raw = arguments(&["--url", "http://radio.example/live", "--path", "records", "--port", "80"]);
    assert_eq!(
        sorted(fetch_arguments(&raw)),
        Ok(vec![
            pair("path", "records"),
            pair("port", "80"),
            pair("url", "http://radio.example/live"),
        ])
    );
    assert_eq!(fetch_arguments(&arguments(&[])), Ok(vec![]));
}

#[test]
fn argument_given_twice_keeps_its_last_value() {
    let raw = arguments(&["--path", "a", "--path", "b"]);
    assert_eq!(fetch_arguments(&raw), Ok(vec![pair("path", "b")]));
}

#[test]
fn arguments_given_many_times_are_held_once_each() {
    let raw = arguments(&[
        "--path", "a", "--port", "1", "--path", "b", "--url", "http://x/", "--port", "2",
        "--path", "c", "--port", "3",
    ]);
    let read = sorted(fetch_arguments(&raw)).unwrap();
    assert_eq!(read.len(), 3);
    assert_eq!(read, vec![pair("path", "c"), pair("port", "3"), pair("url", "http://x/")]);
}

#[test]
fn fault_in_an_argument_given_twice_is_still_a_fault() {
    let raw = arguments(&["--port", "80", "--port", "http"]);
    assert_eq!(fetch_arguments(&raw), Err(Error::PortInvalid(text("http"))));
    let raw = arguments(&["--port", "http", "--port", "80"]);
    assert_eq!(fetch_arguments(&raw), Err(Error::PortInvalid(text("http"))));
}

#[test]
fn odd_number_of_arguments_is_a_corrupted_command_line() {
    assert_eq!(fetch_arguments(&arguments(&["--path"])), Err(Error::CommandLineCorrupted));
    assert_eq!(
        fetch_arguments(&arguments(&["--path", "records", "--url"])),
        Err(Error::CommandLineCorrupted)
    );
    assert_eq!(
        fetch_arguments(&arguments(&["path", "records", "--url"])),
        Err(Error::CommandLineCorrupted)
    );
}

#[test]
fn first_pair_at_fault_decides_the_error() {
    let raw = arguments(&["--path", "records", "--port", "http", "url", "x", "--url", "y"]);
    assert_eq!(fetch_arguments(&raw), Err(Error::PortInvalid(text("http"))));
    let raw = arguments(&["--path", "records", "--speed", "9", "--port", "http"]);
    assert_eq!(fetch_arguments(&raw), Err(Error::ArgumentInvalid(text("speed"))));
}

#[test]
fn settings_error_messages() {
    assert_eq!(Error::CommandLineCorrupted.message(), "Command line is corrupted");
    assert_eq!(Error::PathOmitted.message(), "Mandatory `path` argument is omitted");
    assert_eq!(Error::UrlOmitted.message(), "Mandatory `url` argument is omitted");
    assert_eq!(
        Error::ArgumentPrefixCorrupted(text("-p")).message(),
        "Argument prefix is corrupted: -p"
    );
    assert_eq!(Error::ArgumentInvalid(text("speed")).message(), "Argument is invalid: speed");
    assert_eq!(Error::UrlInvalid(text("radio")).message(), "URL is invalid: radio");
    assert_eq!(Error::PortInvalid(text("http")).message(), "Port is invalid: http");
    assert_eq!(Error::TimeoutInvalid(text("0")).message(), "Timeout is invalid: 0");
}

#[test]
fn entry_error_messages() {
    assert_eq!(
        EntryError::InitializationError(text("no disk")).message(),
        "Initialization error: no disk"
    );
    assert_eq!(EntryError::TerminationError.message(), "Termination error");
    assert_eq!(EntryError::CommunicationError.message(), "Communication error");
    assert_eq!(EntryError::IoError(text("denied")).message(), "I/O error: denied");
}

#[test]
fn bare_text_becomes_a_communication_error() {
    assert_eq!(EntryError::from(text("lost")), EntryError::CommunicationError);
    assert_eq!(EntryError::from(String::new()), EntryError::CommunicationError);
    assert_eq!(EntryError::from("lost"), EntryError::CommunicationError);
}

#[test]
fn initialization_and_io_errors_are_fatal_at_startup() {
    assert!(EntryError::InitializationError(text("no disk")).is_fatal_at_startup());
    assert!(EntryError::IoError(text("denied")).is_fatal_at_startup());
    assert!(!EntryError::TerminationError.is_fatal_at_startup());
    assert!(!EntryError::CommunicationError.is_fatal_at_startup());
}
