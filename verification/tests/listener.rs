use stream_recorder::listener::error::Error;
use stream_recorder::listener::{Action, Event, Listener, SLEEP_INTERVAL};
use stream_recorder::storage::disk_inspector::{DiskInspector, Mount};
use stream_recorder::storage::recorder::{FileTarget, Recorder, WriteOutcome};

const MAY_2015: i64 = 1_431_648_000;
const URL: &str = "http://radio.example/live";

fn listener(timeout: u64) -> Listener {
    let mount = Mount { mount_point: "/".to_string(), available_space: 1_000 };
    let recorder = Recorder::new("/records".to_string(), DiskInspector::new(mount, 0));
    Listener::new(URL.to_string(), timeout, recorder)
}

fn connect(timeout: u64) -> Action {
    Action::Connect { url: URL.to_string(), timeout }
}

fn append(path: &str, create: bool, data: &[u8]) -> Action {
    Action::Append { target: FileTarget { path: path.to_string(), create }, data: data.to_vec() }
}

fn close(path: &str) -> Action {
    Action::Close { path: path.to_string() }
}

/// Sleeps through one pause and returns the lengths of the sleeps and the
/// action that follows the pause.
fn sleep_through(listener: &mut Listener, first: Action) -> (Vec<u64>, Action) {
    let mut sleeps = Vec::new();
    let mut action = first;
    while let Action::Sleep { interval } = action {
        sleeps.push(interval);
        action = listener.step(Event::Slept, MAY_2015);
    }
    (sleeps, action)
}

#[test]
fn new_listener_is_about_to_connect() {
    let listener = listener(5_000);
    assert_eq!(listener.get_bytes(), 0);
    assert_eq!(listener.fault(), None);
    assert!(!listener.is_terminated());
    assert_eq!(listener.start(), connect(5_000));
    assert_eq!(listener.start(), connect(5_000));
}

#[test]
fn five_bytes_then_end_of_stream_make_one_file() {
    let mut listener = listener(1_000);
    assert_eq!(listener.start(), connect(1_000));
    assert_eq!(
        listener.step(Event::Connected { status: 200 }, MAY_2015),
        Action::Read { timeout: 1_000 }
    );
    assert_eq!(
        listener.step(Event::Chunk(b"hello".to_vec()), MAY_2015),
        append("/records/20150515000000.mp3", true, b"hello")
    );
    assert_eq!(listener.get_bytes(), 5);
    assert_eq!(listener.recorder().bytes_written(), 0);
    assert_eq!(
        listener.step(Event::Appended(WriteOutcome::Written), MAY_2015 + 1),
        Action::Read { timeout: 1_000 }
    );
    assert_eq!(listener.recorder().bytes_written(), 5);
    assert_eq!(listener.recorder().current_file().as_ref().unwrap().written(), 5);
    assert_eq!(
        listener.step(Event::Ended, MAY_2015 + 2),
        close("/records/20150515000000.mp3")
    );
    assert_eq!(listener.fault(), Some(Error::StreamEmpty));
    assert!(listener.recorder().current_file().is_none());
    assert_eq!(
        listener.step(Event::Closed, MAY_2015 + 2),
        Action::Sleep { interval: SLEEP_INTERVAL }
    );
    assert_eq!(listener.get_bytes(), 5);
    assert_eq!(listener.recorder().bytes_written(), 5);
    assert_eq!(listener.recorder().write_failures(), 0);
}

#[test]
fn two_refused_connections_are_retried_after_the_timeout_each() {
    let mut listener = listener(1_200);
    let mut connects = 0;
    let mut action = listener.start();
    for _ in 0..2 {
        assert_eq!(action, connect(1_200));
        connects += 1;
        let paused = listener.step(Event::ConnectionFailed, MAY_2015);
        assert_eq!(listener.fault(), Some(Error::ConnectionFailed));
        let (sleeps, next) = sleep_through(&mut listener, paused);
        assert_eq!(sleeps, vec![500, 500, 200]);
        assert_eq!(sleeps.iter().sum::<u64>(), 1_200);
        action = next;
    }
    assert_eq!(action, connect(1_200));
    connects += 1;
    assert_eq!(
        listener.step(Event::Connected { status: 200 }, MAY_2015),
        Action::Read { timeout: 1_200 }
    );
    assert_eq!(connects, 3);
    assert_eq!(listener.fault(), None);
}

#[test]
fn cancellation_in_the_middle_of_a_read_flushes_and_leaves() {
    let mut listener = listener(30_000);
    listener.step(Event::Connected { status: 200 }, MAY_2015);
    listener.step(Event::Chunk(b"abc".to_vec()), MAY_2015);
    assert_eq!(
        listener.step(Event::Appended(WriteOutcome::Written), MAY_2015),
        Action::Read { timeout: 30_000 }
    );
    assert_eq!(
        listener.step(Event::Cancelled, MAY_2015 + 3),
        close("/records/20150515000000.mp3")
    );
    assert_eq!(listener.fault(), Some(Error::Terminated));
    assert!(!listener.is_terminated());
    assert_eq!(listener.step(Event::Closed, MAY_2015 + 3), Action::Exit);
    assert!(listener.is_terminated());
    assert_eq!(listener.get_bytes(), 3);
    assert_eq!(listener.recorder().bytes_written(), 3);
    assert!(listener.recorder().current_file().is_none());
}

#[test]
fn terminated_listener_only_leaves() {
    let mut listener = listener(1_000);
    assert_eq!(listener.step(Event::Cancelled, MAY_2015), Action::Exit);
    assert!(listener.is_terminated());
    assert_eq!(listener.start(), Action::Exit);
    assert_eq!(listener.step(Event::Connected { status: 200 }, MAY_2015), Action::Exit);
    assert_eq!(listener.step(Event::Chunk(b"abc".to_vec()), MAY_2015), Action::Exit);
    assert_eq!(listener.step(Event::Slept, MAY_2015), Action::Exit);
    assert_eq!(listener.step(Event::Cancelled, MAY_2015), Action::Exit);
    assert_eq!(listener.get_bytes(), 0);
    assert_eq!(listener.fault(), Some(Error::Terminated));
}

#[test]
fn cancellation_during_a_pause_leaves_at_once() {
    let mut listener = listener(10_000);
    assert_eq!(
        listener.step(Event::ConnectionFailed, MAY_2015),
        Action::Sleep { interval: 500 }
    );
    assert_eq!(listener.step(Event::Slept, MAY_2015), Action::Sleep { interval: 500 });
    assert_eq!(listener.step(Event::Cancelled, MAY_2015), Action::Exit);
    assert!(listener.is_terminated());
}

#[test]
fn cancellation_while_a_file_is_closed_still_waits_for_the_closing() {
    let mut listener = listener(10_000);
    listener.step(Event::Connected { status: 200 }, MAY_2015);
    listener.step(Event::Chunk(b"abc".to_vec()), MAY_2015);
    listener.step(Event::Appended(WriteOutcome::Written), MAY_2015);
    let path = "/records/20150515000000.mp3";
    assert_eq!(listener.step(Event::Elapsed, MAY_2015), close(path));
    assert_eq!(listener.fault(), Some(Error::StreamElapsed));
    assert_eq!(listener.step(Event::Cancelled, MAY_2015), close(path));
    assert_eq!(listener.step(Event::Closed, MAY_2015), Action::Exit);
    assert!(listener.is_terminated());
}

#[test]
fn cancellation_gives_up_the_chunk_that_waits() {
    let mut listener = listener(10_000);
    listener.step(Event::Connected { status: 200 }, MAY_2015);
    listener.step(Event::Chunk(b"abc".to_vec()), MAY_2015);
    assert_eq!(listener.step(Event::Cancelled, MAY_2015), Action::Exit);
    assert_eq!(listener.get_bytes(), 3);
    assert_eq!(listener.recorder().bytes_written(), 0);
    assert_eq!(listener.recorder().write_failures(), 1);
}

#[test]
fn unusable_status_is_a_failed_connection() {
    for status in [199u16, 300, 301, 404, 500, 0, u16::MAX] {
        let mut listener = listener(700);
        assert_eq!(
            listener.step(Event::Connected { status }, MAY_2015),
            Action::Sleep { interval: 500 }
        );
        assert_eq!(listener.fault(), Some(Error::ConnectionFailed));
        assert_eq!(listener.step(Event::Slept, MAY_2015), Action::Sleep { interval: 200 });
        assert_eq!(listener.step(Event::Slept, MAY_2015), connect(700));
    }
}

#[test]
fn every_success_status_starts_the_reading() {
    for status in [200u16, 204, 206, 299] {
        let mut listener = listener(700);
        assert_eq!(
            listener.step(Event::Connected { status }, MAY_2015),
            Action::Read { timeout: 700 }
        );
    }
}

#[test]
fn read_failures_lead_to_a_pause_and_another_attempt() {
    let cases = [
        (Event::Corrupted, Error::StreamCorrupted),
        (Event::Ended, Error::StreamEmpty),
        (Event::Elapsed, Error::StreamElapsed),
    ];
    for (event, error) in cases {
        let mut listener = listener(400);
        listener.step(Event::Connected { status: 200 }, MAY_2015);
        assert_eq!(listener.step(event, MAY_2015), Action::Sleep { interval: 400 });
        assert_eq!(listener.fault(), Some(error));
        assert_eq!(listener.step(Event::Slept, MAY_2015), connect(400));
    }
}

#[test]
fn pause_takes_in_the_end_of_each_sleep() {
    let mut listener = listener(1_200);
    assert_eq!(listener.step(Event::ConnectionFailed, MAY_2015), Action::Sleep { interval: 500 });
    assert_eq!(listener.pause(Event::Slept), Action::Sleep { interval: 500 });
    assert_eq!(listener.pause(Event::Closed), Action::Sleep { interval: 500 });
    assert_eq!(listener.pause(Event::Slept), Action::Sleep { interval: 200 });
    assert_eq!(listener.pause(Event::Slept), connect(1_200));
    assert_eq!(listener.pause(Event::Slept), connect(1_200));
}

#[test]
fn pause_is_cut_short_by_cancellation() {
    let mut listener = listener(3_600_000);
    assert_eq!(listener.step(Event::ConnectionFailed, MAY_2015), Action::Sleep { interval: 500 });
    assert_eq!(listener.pause(Event::Cancelled), Action::Exit);
    assert!(listener.is_terminated());
    assert_eq!(listener.fault(), Some(Error::Terminated));
    assert_eq!(listener.pause(Event::Slept), Action::Exit);
}

#[test]
fn pause_outside_a_pause_changes_nothing() {
    let mut listener = listener(1_000);
    assert_eq!(listener.pause(Event::Slept), connect(1_000));
    assert_eq!(listener.pause(Event::Cancelled), connect(1_000));
    assert!(!listener.is_terminated());
    assert_eq!(listener.fault(), None);
}

#[test]
fn shortest_timeout_is_slept_in_one_sleep() {
    let mut listener = listener(1);
    assert_eq!(listener.step(Event::ConnectionFailed, MAY_2015), Action::Sleep { interval: 1 });
    assert_eq!(listener.step(Event::Slept, MAY_2015), connect(1));
    assert_eq!(listener.step(Event::Connected { status: 200 }, MAY_2015), Action::Read {
        timeout: 1
    });
    assert_eq!(listener.step(Event::Ended, MAY_2015), Action::Sleep { interval: 1 });
}

#[test]
fn pause_that_is_a_multiple_of_the_interval_ends_on_time() {
    let mut listener = listener(1_000);
    let paused = listener.step(Event::ConnectionFailed, MAY_2015);
    let (sleeps, next) = sleep_through(&mut listener, paused);
    assert_eq!(sleeps, vec![500, 500]);
    assert_eq!(next, connect(1_000));
}

#[test]
fn event_that_answers_nothing_changes_nothing() {
    let mut listener = listener(1_000);
    assert_eq!(listener.step(Event::Slept, MAY_2015), connect(1_000));
    assert_eq!(listener.step(Event::Chunk(b"abc".to_vec()), MAY_2015), connect(1_000));
    assert_eq!(listener.step(Event::Closed, MAY_2015), connect(1_000));
    assert_eq!(listener.get_bytes(), 0);
    listener.step(Event::Connected { status: 200 }, MAY_2015);
    assert_eq!(
        listener.step(Event::Connected { status: 200 }, MAY_2015),
        Action::Read { timeout: 1_000 }
    );
    assert_eq!(
        listener.step(Event::Appended(WriteOutcome::Written), MAY_2015),
        Action::Read { timeout: 1_000 }
    );
    assert_eq!(listener.recorder().bytes_written(), 0);
    let wanted = append("/records/20150515000000.mp3", true, b"abc");
    assert_eq!(listener.step(Event::Chunk(b"abc".to_vec()), MAY_2015), wanted);
    assert_eq!(listener.step(Event::Ended, MAY_2015), wanted);
    assert_eq!(listener.start(), wanted);
    assert_eq!(listener.get_bytes(), 3);
}

#[test]
fn chunks_of_one_connection_go_to_one_file_in_order() {
    let mut listener = listener(1_000);
    listener.step(Event::Connected { status: 200 }, MAY_2015);
    let path = "/records/20150515000000.mp3";
    assert_eq!(
        listener.step(Event::Chunk(b"ab".to_vec()), MAY_2015),
        append(path, true, b"ab")
    );
    listener.step(Event::Appended(WriteOutcome::Written), MAY_2015);
    assert_eq!(
        listener.step(Event::Chunk(b"cde".to_vec()), MAY_2015 + 7),
        append(path, false, b"cde")
    );
    listener.step(Event::Appended(WriteOutcome::Written), MAY_2015 + 7);
    assert_eq!(
        listener.step(Event::Chunk(b"f".to_vec()), MAY_2015 + 9),
        append(path, false, b"f")
    );
    listener.step(Event::Appended(WriteOutcome::Written), MAY_2015 + 9);
    assert_eq!(listener.step(Event::Ended, MAY_2015 + 9), close(path));
    assert_eq!(listener.get_bytes(), 6);
    assert_eq!(listener.recorder().bytes_written(), 6);
}

#[test]
fn next_connection_writes_to_a_new_file() {
    let mut listener = listener(100);
    listener.step(Event::Connected { status: 200 }, MAY_2015);
    listener.step(Event::Chunk(b"ab".to_vec()), MAY_2015);
    listener.step(Event::Appended(WriteOutcome::Written), MAY_2015);
    assert_eq!(
        listener.step(Event::Corrupted, MAY_2015),
        close("/records/20150515000000.mp3")
    );
    assert_eq!(listener.step(Event::Closed, MAY_2015), Action::Sleep { interval: 100 });
    assert_eq!(listener.step(Event::Slept, MAY_2015), connect(100));
    listener.step(Event::Connected { status: 200 }, MAY_2015 + 1);
    assert_eq!(
        listener.step(Event::Chunk(b"cd".to_vec()), MAY_2015 + 1),
        append("/records/20150515000001.mp3", true, b"cd")
    );
}

#[test]
fn failed_writes_keep_the_counters_apart() {
    let mut listener = listener(1_000);
    listener.step(Event::Connected { status: 200 }, MAY_2015);
    listener.step(Event::Chunk(b"abc".to_vec()), MAY_2015);
    assert_eq!(
        listener.step(Event::Appended(WriteOutcome::OpenFailed), MAY_2015),
        Action::Read { timeout: 1_000 }
    );
    assert_eq!(
        listener.step(Event::Chunk(b"de".to_vec()), MAY_2015 + 1),
        append("/records/20150515000001.mp3", true, b"de")
    );
    listener.step(Event::Appended(WriteOutcome::AppendFailed), MAY_2015 + 1);
    listener.step(Event::Chunk(b"f".to_vec()), MAY_2015 + 2);
    listener.step(Event::Appended(WriteOutcome::Written), MAY_2015 + 2);
    assert_eq!(listener.get_bytes(), 6);
    assert_eq!(listener.recorder().bytes_written(), 1);
    assert_eq!(listener.recorder().write_failures(), 2);
}

#[test]
fn chunk_at_a_second_without_a_name_is_given_up() {
    let mut listener = listener(1_000);
    listener.step(Event::Connected { status: 200 }, MAY_2015);
    assert_eq!(
        listener.step(Event::Chunk(b"abc".to_vec()), i64::MAX),
        Action::Read { timeout: 1_000 }
    );
    assert_eq!(listener.get_bytes(), 3);
    assert_eq!(listener.recorder().bytes_written(), 0);
    assert_eq!(listener.recorder().write_failures(), 1);
}

#[test]
fn advance_reads_the_clock() {
    let mut listener = listener(1_000);
    listener.advance(Event::Connected { status: 200 });
    match listener.advance(Event::Chunk(b"abc".to_vec())) {
        Action::Append { target, data } => {
            assert!(target.create);
            assert!(target.path.starts_with("/records/20"));
            assert!(target.path.ends_with(".mp3"));
            assert_eq!(target.path.len(), "/records/".len() + 14 + ".mp3".len());
            assert_eq!(data, b"abc".to_vec());
        }
        other => panic!("unexpected action {:?}", other),
    }
    assert_eq!(listener.advance(Event::Cancelled), Action::Exit);
}

#[test]
fn listener_serves_the_cached_disk_sample() {
    let mut listener = listener(1_000);
    listener.ensure_refreshed(60);
    assert_eq!(listener.recorder().disk_inspector().cached(), 1_000);
    let mount = Mount { mount_point: "/no/such/mount".to_string(), available_space: 42 };
    let recorder = Recorder::new("/records".to_string(), DiskInspector::new(mount, 0));
    let mut listener = Listener::new(URL.to_string(), 1_000, recorder);
    assert_eq!(listener.bytes_available(), 42);
}

#[test]
fn listener_error_messages() {
    assert_eq!(Error::Terminated.message(), "Terminated");
    assert_eq!(Error::ConnectionFailed.message(), "Connection failed");
    assert_eq!(Error::StreamCorrupted.message(), "Stream is corrupted");
    assert_eq!(Error::StreamEmpty.message(), "Stream is empty");
    assert_eq!(Error::StreamElapsed.message(), "Stream reading timeout");
}

#[test]
fn only_termination_is_final() {
    assert!(!Error::Terminated.is_recoverable());
    assert!(Error::ConnectionFailed.is_recoverable());
    assert!(Error::StreamCorrupted.is_recoverable());
    assert!(Error::StreamEmpty.is_recoverable());
    assert!(Error::StreamElapsed.is_recoverable());
}
