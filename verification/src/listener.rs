//! The stream listener: connect, read, hand over, pause, retry, stop.
//!
//! The listener is a state machine. The caller performs the [`Action`] it is
//! given (racing each connect, read and sleep against cancellation) and
//! reports the result as an [`Event`]; [`Listener::step`] answers with the
//! next action. Only cancellation ends the exchange.

pub mod error;

use crate::listener::error::Error;
use crate::storage::recorder::{
    saturated, stamp_text, FileTarget, FileTargetView, Recorder, RecorderView, WriteCall,
    WriteOutcome,
};
use crate::storage::disk_inspector::{timestamp, MountView};
use vstd::prelude::*;
use vstd::slice::slice_to_vec;

verus! {

/// Milliseconds between two looks at the cancellation signal during a pause.
pub const SLEEP_INTERVAL: u64 = 500;

/// What the caller reports back.
#[derive(Debug, PartialEq, Eq)]
pub enum Event {
    /// The source answered the request with this HTTP status.
    Connected { status: u16 },
    /// The source could not be reached within the timeout.
    ConnectionFailed,
    /// The next chunk of the body arrived.
    Chunk(Vec<u8>),
    /// Reading the body failed.
    Corrupted,
    /// The body came to its end.
    Ended,
    /// No chunk arrived within the timeout.
    Elapsed,
    /// The append that was asked for ended this way.
    Appended(WriteOutcome),
    /// The file that was to be closed is synced and closed.
    Closed,
    /// The sleep that was asked for is over.
    Slept,
    /// Cancellation fired before the action completed.
    Cancelled,
}

/// The mathematical content of an [`Event`].
pub enum EventView {
    Connected { status: u16 },
    ConnectionFailed,
    Chunk(Seq<u8>),
    Corrupted,
    Ended,
    Elapsed,
    Appended(WriteOutcome),
    Closed,
    Slept,
    Cancelled,
}

impl View for Event {
    type V = EventView;

    open spec fn view(&self) -> EventView {
        match self {
            Event::Connected { status } => EventView::Connected { status: *status },
            Event::ConnectionFailed => EventView::ConnectionFailed,
            Event::Chunk(data) => EventView::Chunk(data@),
            Event::Corrupted => EventView::Corrupted,
            Event::Ended => EventView::Ended,
            Event::Elapsed => EventView::Elapsed,
            Event::Appended(outcome) => EventView::Appended(*outcome),
            Event::Closed => EventView::Closed,
            Event::Slept => EventView::Slept,
            Event::Cancelled => EventView::Cancelled,
        }
    }
}

/// What the caller is to do next.
#[derive(Debug, PartialEq, Eq)]
pub enum Action {
    /// Request the stream; give up after `timeout` milliseconds.
    Connect { url: String, timeout: u64 },
    /// Wait for the next chunk; give up after `timeout` milliseconds.
    Read { timeout: u64 },
    /// Append `data` to the file at `target`, opening it first if asked to.
    Append { target: FileTarget, data: Vec<u8> },
    /// Sync and close the file at `path`.
    Close { path: String },
    /// Sleep for `interval` milliseconds.
    Sleep { interval: u64 },
    /// Leave: the listener has ended.
    Exit,
}

/// The mathematical content of an [`Action`].
pub enum ActionView {
    Connect { url: Seq<char>, timeout: u64 },
    Read { timeout: u64 },
    Append { target: FileTargetView, data: Seq<u8> },
    Close { path: Seq<char> },
    Sleep { interval: u64 },
    Exit,
}

impl View for Action {
    type V = ActionView;

    open spec fn view(&self) -> ActionView {
        match self {
            Action::Connect { url, timeout } => ActionView::Connect { url: url@, timeout: *timeout },
            Action::Read { timeout } => ActionView::Read { timeout: *timeout },
            Action::Append { target, data } => ActionView::Append { target: target@, data: data@ },
            Action::Close { path } => ActionView::Close { path: path@ },
            Action::Sleep { interval } => ActionView::Sleep { interval: *interval },
            Action::Exit => ActionView::Exit,
        }
    }
}

/// Where the listener stands, by the action it waits on.
pub enum PhaseView {
    /// Waiting for the source to answer.
    Connecting,
    /// Waiting for the next chunk.
    Streaming,
    /// Waiting for `chunk`, received at second `at`, to be appended.
    Writing { chunk: Seq<u8>, at: i64 },
    /// Waiting for the file at `path` to be closed; `leaving` once
    /// cancellation was observed.
    Closing { path: Seq<char>, leaving: bool },
    /// Pausing before the next attempt; `waited` milliseconds are over.
    Paused { waited: u64 },
    /// Ended.
    Terminated,
}

enum Phase {
    Connecting,
    Streaming,
    Writing { chunk: Vec<u8>, at: i64 },
    Closing { path: String, leaving: bool },
    Paused { waited: u64 },
    Terminated,
}

impl View for Phase {
    type V = PhaseView;

    closed spec fn view(&self) -> PhaseView {
        match self {
            Phase::Connecting => PhaseView::Connecting,
            Phase::Streaming => PhaseView::Streaming,
            Phase::Writing { chunk, at } => PhaseView::Writing { chunk: chunk@, at: *at },
            Phase::Closing { path, leaving } => PhaseView::Closing { path: path@, leaving: *leaving },
            Phase::Paused { waited } => PhaseView::Paused { waited: *waited },
            Phase::Terminated => PhaseView::Terminated,
        }
    }
}

/// The state of a listener as contracts see it.
pub struct ListenerView {
    /// The source of the stream.
    pub url: Seq<char>,
    /// Milliseconds allowed to a connect and to a read, and the length of
    /// the pause between attempts.
    pub timeout: u64,
    /// Bytes received over all attempts.
    pub bytes: nat,
    /// Why the last attempt ended, if one has.
    pub fault: Option<Error>,
    /// The action waited on.
    pub phase: PhaseView,
    /// The recorder that receives the bytes.
    pub recorder: RecorderView,
}

impl ListenerView {
    /// The timeout is positive, the recorder is well formed and the counter
    /// fits the machine.
    pub open spec fn sound(self) -> bool {
        &&& self.timeout > 0
        &&& self.recorder.wf()
        &&& self.bytes <= usize::MAX
    }

    /// The state is sound and the phase agrees with the recorder: a chunk
    /// waiting to be appended has a file to go to, a file is open only while
    /// an attempt reads or writes, and a pause is not over yet.
    pub open spec fn wf(self) -> bool {
        &&& self.sound()
        &&& match self.phase {
            PhaseView::Connecting => self.recorder.file is None,
            PhaseView::Streaming => true,
            PhaseView::Writing { chunk, at } => self.recorder.target(at) is Some,
            PhaseView::Closing { path, leaving } => self.recorder.file is None,
            PhaseView::Paused { waited } => waited < self.timeout && self.recorder.file is None,
            PhaseView::Terminated => self.recorder.file is None,
        }
    }

    /// The length of the next sleep of a pause of which `waited`
    /// milliseconds are over: the polling interval, or what is left of the
    /// timeout if that is less.
    pub open spec fn interval(self, waited: u64) -> u64 {
        if self.timeout - waited < SLEEP_INTERVAL {
            (self.timeout - waited) as u64
        } else {
            SLEEP_INTERVAL
        }
    }

    /// The action the listener waits on.
    pub open spec fn awaited(self) -> ActionView {
        match self.phase {
            PhaseView::Connecting => ActionView::Connect { url: self.url, timeout: self.timeout },
            PhaseView::Streaming => ActionView::Read { timeout: self.timeout },
            PhaseView::Writing { chunk, at } => ActionView::Append {
                target: self.recorder.target(at).unwrap(),
                data: chunk,
            },
            PhaseView::Closing { path, leaving } => ActionView::Close { path },
            PhaseView::Paused { waited } => ActionView::Sleep { interval: self.interval(waited) },
            PhaseView::Terminated => ActionView::Exit,
        }
    }

    /// An event that does not answer the awaited action changes nothing.
    pub open spec fn unmoved(self) -> (ListenerView, ActionView) {
        (self, self.awaited())
    }

    /// Enters the given phase and asks for the action it waits on.
    pub open spec fn entered(self, phase: PhaseView) -> (ListenerView, ActionView) {
        let next = ListenerView { phase, ..self };
        (next, next.awaited())
    }

    /// Begins the pause before the next attempt.
    pub open spec fn backed_off(self) -> (ListenerView, ActionView) {
        self.entered(PhaseView::Paused { waited: 0 })
    }

    /// Ends an attempt for the recoverable reason `error`: the open file, if
    /// any, is flushed and is to be closed; then the pause begins.
    pub open spec fn retired(self, error: Error) -> (ListenerView, ActionView) {
        let noted = ListenerView { fault: Some(error), recorder: self.recorder.flushed(), ..self };
        match self.recorder.file {
            Some(file) => noted.entered(PhaseView::Closing { path: file.path, leaving: false }),
            None => noted.backed_off(),
        }
    }

    /// Observes cancellation: the open file, if any, is flushed and is to be
    /// closed, and then the listener ends. A chunk still waiting to be
    /// appended is given up and counted as a failed write.
    pub open spec fn stopped(self) -> (ListenerView, ActionView) {
        let recorder = if self.phase is Writing {
            self.recorder.failed()
        } else {
            self.recorder
        };
        let noted = ListenerView {
            fault: Some(Error::Terminated),
            recorder: recorder.flushed(),
            ..self
        };
        match self.phase {
            PhaseView::Terminated => self.unmoved(),
            PhaseView::Closing { path, leaving } => noted.entered(
                PhaseView::Closing { path, leaving: true },
            ),
            _ => match self.recorder.file {
                Some(file) => noted.entered(PhaseView::Closing { path: file.path, leaving: true }),
                None => noted.entered(PhaseView::Terminated),
            },
        }
    }

    /// Takes in a chunk at second `now`: it is counted as received and is to
    /// be appended where the recorder says. Where the recorder has no file
    /// to offer the chunk is given up, counted as a failed write, and
    /// reading goes on.
    pub open spec fn received(self, data: Seq<u8>, now: i64) -> (ListenerView, ActionView) {
        let counted = ListenerView { bytes: saturated(self.bytes, data.len()), ..self };
        if self.recorder.target(now) is Some {
            counted.entered(PhaseView::Writing { chunk: data, at: now })
        } else {
            (ListenerView { recorder: self.recorder.failed(), ..counted }).entered(
                PhaseView::Streaming,
            )
        }
    }

    /// One sleep of the pause is over: the pause goes on until the timeout
    /// has been waited out, then the next attempt begins.
    pub open spec fn rested(self, waited: u64) -> (ListenerView, ActionView) {
        if waited + self.interval(waited) >= self.timeout {
            self.entered(PhaseView::Connecting)
        } else {
            self.entered(PhaseView::Paused { waited: (waited + self.interval(waited)) as u64 })
        }
    }

    /// The state after the free space was asked for at time `now`, when a
    /// fresh look at the disks would show `mounts`.
    pub open spec fn sampled(self, mounts: Seq<MountView>, now: nat) -> ListenerView {
        ListenerView { recorder: self.recorder.sampled(mounts, now), ..self }
    }

    /// While connecting: an answer with a success status starts the
    /// reading; any other answer, and no answer, ends the attempt.
    pub open spec fn listened(self, event: EventView) -> (ListenerView, ActionView) {
        match event {
            EventView::Connected { status } => if 200 <= status < 300 {
                (ListenerView { fault: None, ..self }).entered(PhaseView::Streaming)
            } else {
                self.retired(Error::ConnectionFailed)
            },
            EventView::ConnectionFailed => self.retired(Error::ConnectionFailed),
            _ => self.unmoved(),
        }
    }

    /// While reading: a chunk is taken in; a failed read, the end of the
    /// stream and a read that took too long end the attempt.
    pub open spec fn processed(self, event: EventView, now: i64) -> (ListenerView, ActionView) {
        match event {
            EventView::Chunk(data) => self.received(data, now),
            EventView::Corrupted => self.retired(Error::StreamCorrupted),
            EventView::Ended => self.retired(Error::StreamEmpty),
            EventView::Elapsed => self.retired(Error::StreamElapsed),
            _ => self.unmoved(),
        }
    }

    /// While `chunk`, received at second `at`, waits to be appended: the
    /// result of the append is booked with the recorder and reading goes on.
    pub open spec fn wrote(self, chunk: Seq<u8>, at: i64, event: EventView) -> (
        ListenerView,
        ActionView,
    ) {
        match event {
            EventView::Appended(outcome) => (ListenerView {
                recorder: self.recorder.written(chunk, at, outcome),
                ..self
            }).entered(PhaseView::Streaming),
            _ => self.unmoved(),
        }
    }

    /// While a file is being closed: once it is closed the listener ends if
    /// it is `leaving`, and pauses otherwise.
    pub open spec fn closed(self, leaving: bool, event: EventView) -> (ListenerView, ActionView) {
        match event {
            EventView::Closed => if leaving {
                self.entered(PhaseView::Terminated)
            } else {
                self.backed_off()
            },
            _ => self.unmoved(),
        }
    }

    /// While pausing, `waited` milliseconds being over: the pause goes on
    /// after each sleep.
    pub open spec fn paused(self, waited: u64, event: EventView) -> (ListenerView, ActionView) {
        match event {
            EventView::Slept => self.rested(waited),
            _ => self.unmoved(),
        }
    }

    /// What a report makes of a pause: cancellation ends it and the
    /// listener, the end of a sleep carries it on, and anything else, as
    /// any report outside a pause, changes nothing.
    pub open spec fn pausing(self, event: EventView) -> (ListenerView, ActionView) {
        match self.phase {
            PhaseView::Paused { waited } => if event is Cancelled {
                self.stopped()
            } else {
                self.paused(waited, event)
            },
            _ => self.unmoved(),
        }
    }

    /// The state after `event`, reported at second `now`, and the action
    /// asked for next. Cancellation is observed in every phase; any other
    /// event is taken by the phase the listener is in.
    pub open spec fn next(self, event: EventView, now: i64) -> (ListenerView, ActionView) {
        if event is Cancelled {
            self.stopped()
        } else {
            match self.phase {
                PhaseView::Connecting => self.listened(event),
                PhaseView::Streaming => self.processed(event, now),
                PhaseView::Writing { chunk, at } => self.wrote(chunk, at, event),
                PhaseView::Closing { path, leaving } => self.closed(leaving, event),
                PhaseView::Paused { waited } => self.paused(waited, event),
                PhaseView::Terminated => self.unmoved(),
            }
        }
    }
}

/// Keeps a connection to one stream alive and forwards what arrives to the
/// recorder.
pub struct Listener {
    url: String,
    timeout: u64,
    recorder: Recorder,
    bytes: usize,
    fault: Option<Error>,
    phase: Phase,
}

impl View for Listener {
    type V = ListenerView;

    closed spec fn view(&self) -> ListenerView {
        ListenerView {
            url: self.url@,
            timeout: self.timeout,
            bytes: self.bytes as nat,
            fault: self.fault,
            phase: self.phase@,
            recorder: self.recorder@,
        }
    }
}

impl Listener {
    /// A listener for `url` that has received nothing and is about to
    /// connect. `timeout` is in milliseconds and is not zero: with zero no
    /// connect and no read could complete. The recorder has no file open:
    /// every file is opened by an attempt of the listener and closed when
    /// that attempt ends.
    pub fn new(url: String, timeout: u64, recorder: Recorder) -> (listener: Listener)
        requires
            timeout > 0,
            recorder@.wf(),
            recorder@.file is None,
        ensures
            listener@ == (ListenerView {
                url: url@,
                timeout,
                bytes: 0,
                fault: None,
                phase: PhaseView::Connecting,
                recorder: recorder@,
            }),
            listener@.wf(),
    {
        Listener { url, timeout, recorder, bytes: 0, fault: None, phase: Phase::Connecting }
    }

    /// Bytes received over all attempts, held at `usize::MAX` once passed.
    pub fn get_bytes(&self) -> (bytes: usize)
        ensures
            bytes == self@.bytes,
    {
        self.bytes
    }

    /// Why the last attempt ended, if one has.
    pub fn fault(&self) -> (fault: Option<Error>)
        ensures
            fault == self@.fault,
    {
        self.fault
    }

    /// The recorder that receives the bytes.
    pub fn recorder(&self) -> (recorder: &Recorder)
        ensures
            recorder@ == self@.recorder,
    {
        &self.recorder
    }

    /// Refreshes the disk sample of the recorder if it is stale at time
    /// `now`; see [`Recorder::ensure_refreshed`]. Nothing else changes.
    pub fn ensure_refreshed(&mut self, now: usize)
        ensures
            exists|mounts: Seq<MountView>|
                final(self)@ == #[trigger] old(self)@.sampled(mounts, now as nat),
            old(self)@.wf() ==> final(self)@.wf(),
    {
        let ghost before = self.recorder@;
        self.recorder.ensure_refreshed(now);
        proof {
            let mounts = choose|mounts: Seq<MountView>|
                self.recorder@ == #[trigger] before.sampled(mounts, now as nat);
            assert(self@ == old(self)@.sampled(mounts, now as nat));
        }
    }

    /// Bytes free on the filesystem that hosts the recordings; see
    /// [`Recorder::bytes_available`]. Nothing else changes.
    pub fn bytes_available(&mut self) -> (bytes: usize)
        ensures
            exists|mounts: Seq<MountView>, now: nat|
                final(self)@ == #[trigger] old(self)@.sampled(mounts, now),
            bytes == final(self)@.recorder.disk.available_bytes,
            old(self)@.wf() ==> final(self)@.wf(),
    {
        let ghost before = self.recorder@;
        let bytes = self.recorder.bytes_available();
        proof {
            let (mounts, now) = choose|mounts: Seq<MountView>, now: nat|
                self.recorder@ == #[trigger] before.sampled(mounts, now);
            assert(self@ == old(self)@.sampled(mounts, now));
        }
        bytes
    }

    /// Whether the listener has ended.
    pub fn is_terminated(&self) -> (terminated: bool)
        ensures
            terminated == (self@.phase is Terminated),
    {
        match self.phase {
            Phase::Terminated => true,
            _ => false,
        }
    }

    /// The length of the next sleep of a pause of which `waited`
    /// milliseconds are over.
    fn interval(&self, waited: u64) -> (interval: u64)
        requires
            waited <= self.timeout,
        ensures
            interval == self@.interval(waited),
    {
        if self.timeout - waited < SLEEP_INTERVAL {
            self.timeout - waited
        } else {
            SLEEP_INTERVAL
        }
    }

    /// The action the listener waits on: the first one, for a listener that
    /// was just made, and the one still owed at any later time. Asking does
    /// not change the listener.
    pub fn start(&self) -> (action: Action)
        requires
            self@.wf(),
        ensures
            action@ == self@.awaited(),
    {
        match &self.phase {
            Phase::Connecting => Action::Connect { url: self.url.clone(), timeout: self.timeout },
            Phase::Streaming => Action::Read { timeout: self.timeout },
            Phase::Writing { chunk, at } => {
                let target = self.recorder.target(*at);
                Action::Append { target: target.unwrap(), data: slice_to_vec(chunk.as_slice()) }
            },
            Phase::Closing { path, leaving } => Action::Close { path: path.clone() },
            Phase::Paused { waited } => Action::Sleep { interval: self.interval(*waited) },
            Phase::Terminated => Action::Exit,
        }
    }

    /// Enters `phase` and asks for the action it waits on.
    fn enter(&mut self, phase: Phase) -> (action: Action)
        requires
            old(self)@.entered(phase@).0.wf(),
        ensures
            (final(self)@, action@) == old(self)@.entered(phase@),
    {
        self.phase = phase;
        self.start()
    }

    /// Begins the pause before the next attempt.
    fn back_off(&mut self) -> (action: Action)
        requires
            old(self)@.sound(),
            old(self)@.recorder.file is None,
        ensures
            (final(self)@, action@) == old(self)@.backed_off(),
            final(self)@.wf(),
    {
        self.enter(Phase::Paused { waited: 0 })
    }

    /// Ends an attempt for the recoverable reason `error`.
    fn retire(&mut self, error: Error) -> (action: Action)
        requires
            old(self)@.sound(),
        ensures
            (final(self)@, action@) == old(self)@.retired(error),
            final(self)@.wf(),
    {
        self.fault = Some(error);
        match self.recorder.flush() {
            Some(path) => self.enter(Phase::Closing { path, leaving: false }),
            None => self.back_off(),
        }
    }

    /// Observes cancellation in the phase `phase`, which was taken out of
    /// the listener.
    fn stop(&mut self, phase: Phase) -> (action: Action)
        requires
            (ListenerView { phase: phase@, ..old(self)@ }).wf(),
        ensures
            (final(self)@, action@) == (ListenerView { phase: phase@, ..old(self)@ }).stopped(),
            final(self)@.wf(),
    {
        match phase {
            Phase::Terminated => self.enter(Phase::Terminated),
            Phase::Closing { path, leaving } => {
                self.fault = Some(Error::Terminated);
                let closed = self.recorder.flush();
                self.enter(Phase::Closing { path, leaving: true })
            },
            Phase::Writing { chunk, at } => {
                self.fault = Some(Error::Terminated);
                self.recorder.write(chunk.as_slice(), at, WriteOutcome::OpenFailed);
                match self.recorder.flush() {
                    Some(path) => self.enter(Phase::Closing { path, leaving: true }),
                    None => self.enter(Phase::Terminated),
                }
            },
            _ => {
                self.fault = Some(Error::Terminated);
                match self.recorder.flush() {
                    Some(path) => self.enter(Phase::Closing { path, leaving: true }),
                    None => self.enter(Phase::Terminated),
                }
            },
        }
    }

    /// Takes in the answer of the source to the request for the stream.
    fn listen(&mut self, event: Event) -> (action: Action)
        requires
            (ListenerView { phase: PhaseView::Connecting, ..old(self)@ }).wf(),
        ensures
            (final(self)@, action@) == (ListenerView {
                phase: PhaseView::Connecting,
                ..old(self)@
            }).listened(event@),
            final(self)@.wf(),
    {
        match event {
            Event::Connected { status } => {
                if 200 <= status && status < 300 {
                    self.fault = None;
                    self.enter(Phase::Streaming)
                } else {
                    self.retire(Error::ConnectionFailed)
                }
            },
            Event::ConnectionFailed => self.retire(Error::ConnectionFailed),
            _ => self.enter(Phase::Connecting),
        }
    }

    /// Takes in what came of waiting for the next chunk of the body at
    /// second `now`.
    fn process_response(&mut self, event: Event, now: i64) -> (action: Action)
        requires
            old(self)@.sound(),
        ensures
            (final(self)@, action@) == (ListenerView {
                phase: PhaseView::Streaming,
                ..old(self)@
            }).processed(event@, now),
            final(self)@.wf(),
    {
        match event {
            Event::Chunk(data) => {
                self.bytes = self.bytes.saturating_add(data.len());
                match self.recorder.target(now) {
                    Some(target) => {
                        let copy = slice_to_vec(data.as_slice());
                        self.phase = Phase::Writing { chunk: data, at: now };
                        Action::Append { target, data: copy }
                    },
                    None => {
                        self.recorder.write(data.as_slice(), now, WriteOutcome::OpenFailed);
                        self.enter(Phase::Streaming)
                    },
                }
            },
            Event::Corrupted => self.retire(Error::StreamCorrupted),
            Event::Ended => self.retire(Error::StreamEmpty),
            Event::Elapsed => self.retire(Error::StreamElapsed),
            _ => self.enter(Phase::Streaming),
        }
    }

    /// Books what came of appending `chunk`, received at second `at`.
    fn write_data(&mut self, chunk: Vec<u8>, at: i64, event: Event) -> (action: Action)
        requires
            (ListenerView { phase: PhaseView::Writing { chunk: chunk@, at }, ..old(self)@ }).wf(),
        ensures
            (final(self)@, action@) == (ListenerView {
                phase: PhaseView::Writing { chunk: chunk@, at },
                ..old(self)@
            }).wrote(chunk@, at, event@),
            final(self)@.wf(),
    {
        match event {
            Event::Appended(outcome) => {
                self.recorder.write(chunk.as_slice(), at, outcome);
                self.enter(Phase::Streaming)
            },
            _ => self.enter(Phase::Writing { chunk, at }),
        }
    }

    /// Takes in that the file at `path` is closed.
    fn close(&mut self, path: String, leaving: bool, event: Event) -> (action: Action)
        requires
            (ListenerView { phase: PhaseView::Closing { path: path@, leaving }, ..old(self)@ }).wf(),
        ensures
            (final(self)@, action@) == (ListenerView {
                phase: PhaseView::Closing { path: path@, leaving },
                ..old(self)@
            }).closed(leaving, event@),
            final(self)@.wf(),
    {
        match event {
            Event::Closed => {
                if leaving {
                    self.enter(Phase::Terminated)
                } else {
                    self.back_off()
                }
            },
            _ => self.enter(Phase::Closing { path, leaving }),
        }
    }

    /// Takes in what came of one sleep of the pause before the next attempt.
    /// A sleep that is over is followed by the next one, as long as the
    /// polling interval or as what is left of the timeout, and by the next
    /// attempt once the whole timeout has been slept. Cancellation ends the
    /// pause and the listener at once, whatever is left of the timeout.
    /// Outside a pause, and on any other event, nothing changes.
    pub fn pause(&mut self, event: Event) -> (action: Action)
        requires
            old(self)@.wf(),
        ensures
            (final(self)@, action@) == old(self)@.pausing(event@),
            final(self)@.wf(),
    {
        let waited = match self.phase {
            Phase::Paused { waited } => waited,
            _ => {
                return self.start();
            },
        };
        match event {
            Event::Cancelled => self.stop(Phase::Paused { waited }),
            Event::Slept => {
                let total = waited + self.interval(waited);
                if total >= self.timeout {
                    self.enter(Phase::Connecting)
                } else {
                    self.enter(Phase::Paused { waited: total })
                }
            },
            _ => self.start(),
        }
    }

    /// Takes in what the caller reports at second `now`, counted from the
    /// Unix epoch, and answers with the action to perform next. An event
    /// that does not answer the awaited action changes nothing, and the
    /// awaited action is asked for again.
    pub fn step(&mut self, event: Event, now: i64) -> (action: Action)
        requires
            old(self)@.wf(),
        ensures
            (final(self)@, action@) == old(self)@.next(event@, now),
            final(self)@.wf(),
    {
        let mut phase = Phase::Terminated;
        core::mem::swap(&mut self.phase, &mut phase);
        match (event, phase) {
            (Event::Cancelled, phase) => self.stop(phase),
            (event, Phase::Connecting) => self.listen(event),
            (event, Phase::Streaming) => self.process_response(event, now),
            (event, Phase::Writing { chunk, at }) => self.write_data(chunk, at, event),
            (event, Phase::Closing { path, leaving }) => self.close(path, leaving, event),
            (event, Phase::Paused { waited }) => {
                self.phase = Phase::Paused { waited };
                self.pause(event)
            },
            (_, Phase::Terminated) => self.enter(Phase::Terminated),
        }
    }

    /// [`Listener::step`] at the present second of the system clock.
    pub fn advance(&mut self, event: Event) -> (action: Action)
        requires
            old(self)@.wf(),
        ensures
            exists|now: i64| (final(self)@, action@) == #[trigger] old(self)@.next(event@, now),
            final(self)@.wf(),
    {
        let seconds = timestamp();
        let now: i64 = if seconds > i64::MAX as usize {
            i64::MAX
        } else {
            seconds as i64
        };
        self.step(event, now)
    }
}

/// One report of the caller: the event and the second at which it was made.
pub struct Report {
    pub event: EventView,
    pub now: i64,
}

impl ListenerView {
    /// The state after the reports `reports`, made in order.
    pub open spec fn after(self, reports: Seq<Report>) -> ListenerView
        decreases reports.len(),
    {
        if reports.len() == 0 {
            self
        } else {
            self.after(reports.drop_last()).next(reports.last().event, reports.last().now).0
        }
    }

    /// The listener has observed cancellation: it has ended, or ends as soon
    /// as the last file is closed.
    pub open spec fn leaving(self) -> bool {
        match self.phase {
            PhaseView::Terminated => true,
            PhaseView::Closing { path, leaving } => leaving,
            _ => false,
        }
    }

    /// Every byte received is accounted for: with no failed write on the
    /// books, the bytes received are those written, plus the chunk that
    /// waits to be appended, if one does.
    pub open spec fn balanced(self) -> bool {
        self.recorder.write_failures == 0 ==> match self.phase {
            PhaseView::Writing { chunk, at } => self.bytes == saturated(
                self.recorder.bytes_written,
                chunk.len(),
            ),
            _ => self.bytes == self.recorder.bytes_written,
        }
    }
}

/// The action only closes a file or leaves: it starts no connect, read,
/// append or sleep.
pub open spec fn winds_down(action: ActionView) -> bool {
    action is Close || action is Exit
}

/// A well-formed listener stays well formed whatever is reported to it.
pub proof fn law_step_keeps_well_formed(listener: ListenerView, event: EventView, now: i64)
    requires
        listener.wf(),
    ensures
        listener.next(event, now).0.wf(),
{
}

/// A well-formed listener stays well formed over any run of reports.
pub proof fn law_run_keeps_well_formed(listener: ListenerView, reports: Seq<Report>)
    requires
        listener.wf(),
    ensures
        listener.after(reports).wf(),
    decreases reports.len(),
{
    if reports.len() > 0 {
        law_run_keeps_well_formed(listener, reports.drop_last());
        law_step_keeps_well_formed(
            listener.after(reports.drop_last()),
            reports.last().event,
            reports.last().now,
        );
    }
}

/// Once cancellation is reported the loop is over: the answer to it, and
/// the answer to whatever is reported after it, only closes the open file
/// or leaves. No further connect, read, append or pause is started, no
/// further byte is counted, and no file is left open. If a file is to be
/// closed, the listener ends when the closing is reported.
pub proof fn law_cancellation_ends_the_loop(
    listener: ListenerView,
    now: i64,
    later: Seq<Report>,
    last: Report,
)
    requires
        listener.wf(),
    ensures
        ({
            let cancelled = listener.next(EventView::Cancelled, now);
            let finally = cancelled.0.after(later);
            &&& winds_down(cancelled.1)
            &&& cancelled.0.leaving()
            &&& cancelled.0.recorder.file is None
            &&& cancelled.0.bytes == listener.bytes
            &&& cancelled.0.next(EventView::Closed, last.now).0.phase is Terminated
            &&& cancelled.0.next(EventView::Closed, last.now).1 is Exit
            &&& finally.leaving()
            &&& finally.bytes == listener.bytes
            &&& finally.recorder.bytes_written == cancelled.0.recorder.bytes_written
            &&& finally.recorder.file is None
            &&& winds_down(finally.next(last.event, last.now).1)
        }),
    decreases later.len(),
{
    let cancelled = listener.next(EventView::Cancelled, now);
    if later.len() > 0 {
        law_cancellation_ends_the_loop(listener, now, later.drop_last(), later.last());
        law_run_keeps_well_formed(cancelled.0, later.drop_last());
        law_step_keeps_well_formed(listener, EventView::Cancelled, now);
    }
}

/// Only cancellation ends the loop: a listener that has not observed
/// cancellation has not ended after any run of reports without one, however
/// many connections fail and streams break, and is never told to leave.
pub proof fn law_only_cancellation_ends_the_loop(
    listener: ListenerView,
    reports: Seq<Report>,
    last: Report,
)
    requires
        listener.wf(),
        !listener.leaving(),
        forall|i: int| 0 <= i < reports.len() ==> !((#[trigger] reports[i]).event is Cancelled),
        !(last.event is Cancelled),
    ensures
        !listener.after(reports).leaving(),
        !(listener.after(reports).next(last.event, last.now).1 is Exit),
        !(listener.after(reports).awaited() is Exit),
    decreases reports.len(),
{
    if reports.len() > 0 {
        law_only_cancellation_ends_the_loop(listener, reports.drop_last(), reports.last());
        law_run_keeps_well_formed(listener, reports.drop_last());
    }
    law_run_keeps_well_formed(listener, reports);
}

/// Cancellation is idempotent: reporting it a second time changes nothing
/// and is answered as the first time.
pub proof fn law_cancellation_is_idempotent(listener: ListenerView, first: i64, second: i64)
    requires
        listener.wf(),
    ensures
        listener.next(EventView::Cancelled, first).0.next(EventView::Cancelled, second)
            == listener.next(EventView::Cancelled, first),
{
}

/// A step keeps the books balanced.
pub proof fn law_step_keeps_balance(listener: ListenerView, event: EventView, now: i64)
    requires
        listener.wf(),
        listener.balanced(),
    ensures
        listener.next(event, now).0.balanced(),
{
}

/// The bytes received may run ahead of the bytes written while a chunk
/// waits to be appended, but over any run of reports that begins with the
/// books balanced, the two counters are equal whenever no chunk is waiting
/// and no write has failed: in particular after every flush.
pub proof fn law_counters_meet(listener: ListenerView, reports: Seq<Report>)
    requires
        listener.wf(),
        listener.balanced(),
    ensures
        listener.after(reports).balanced(),
        listener.after(reports).recorder.write_failures == 0 && !(listener.after(
            reports,
        ).phase is Writing) ==> listener.after(reports).bytes == listener.after(
            reports,
        ).recorder.bytes_written,
    decreases reports.len(),
{
    if reports.len() > 0 {
        law_counters_meet(listener, reports.drop_last());
        law_run_keeps_well_formed(listener, reports.drop_last());
        law_step_keeps_balance(
            listener.after(reports.drop_last()),
            reports.last().event,
            reports.last().now,
        );
    }
}

/// A pause is made of sleeps that add up to the timeout exactly: each sleep
/// is as long as the polling interval or as what is left of the timeout,
/// never zero, and the next attempt begins when, and only when, the whole
/// timeout has been slept.
pub proof fn law_pause_lasts_the_timeout(listener: ListenerView, waited: u64, now: i64)
    requires
        listener.wf(),
        listener.phase == (PhaseView::Paused { waited }),
    ensures
        ({
            let slept = waited + listener.interval(waited);
            let next = listener.next(EventView::Slept, now);
            &&& listener.awaited() == ActionView::Sleep { interval: listener.interval(waited) }
            &&& 0 < listener.interval(waited) <= SLEEP_INTERVAL
            &&& slept <= listener.timeout
            &&& if slept == listener.timeout {
                next.0.phase is Connecting && next.1 is Connect
            } else {
                next.0.phase == (PhaseView::Paused { waited: slept as u64 }) && next.1 is Sleep
            }
        }),
{
}

impl ListenerView {
    /// Between two attempts no file is open: whatever an attempt wrote was
    /// flushed before the listener paused, reconnected or ended.
    pub open spec fn settled(self) -> bool {
        self.phase is Streaming || self.phase is Writing || self.recorder.file is None
    }

    /// The count of bytes received after the chunks of `calls` came in.
    pub open spec fn counted(self, calls: Seq<WriteCall>) -> nat
        decreases calls.len(),
    {
        if calls.len() == 0 {
            self.bytes
        } else {
            saturated(self.counted(calls.drop_last()), calls.last().data.len())
        }
    }
}

/// What the caller reports while the chunks of `calls` come in one after the
/// other and each is appended with the outcome given: for each chunk its
/// arrival, then the end of its append.
pub open spec fn deliveries(calls: Seq<WriteCall>) -> Seq<Report>
    decreases calls.len(),
{
    if calls.len() == 0 {
        Seq::empty()
    } else {
        deliveries(calls.drop_last()).push(
            Report { event: EventView::Chunk(calls.last().data), now: calls.last().now },
        ).push(
            Report { event: EventView::Appended(calls.last().outcome), now: calls.last().now },
        )
    }
}

/// A flush comes before the first write of the next attempt: a listener
/// never connects, pauses or ends with a file open, so no file receives
/// bytes of two attempts but by sharing its name.
pub proof fn law_attempts_do_not_share_a_file(listener: ListenerView, reports: Seq<Report>)
    requires
        listener.wf(),
    ensures
        listener.settled(),
        listener.after(reports).settled(),
{
    law_run_keeps_well_formed(listener, reports);
}

/// Within one attempt the recorder is handed exactly the chunks that
/// arrive, each once and in the order of arrival, stamped with the second of
/// its arrival: after any run of arrivals and appends the recorder stands
/// where the same writes, made on it directly, would have left it, and
/// every chunk is counted as received. Seconds without a name are left out:
/// a chunk that arrives at one while no file is open has nowhere to go.
pub proof fn law_chunks_reach_the_recorder_in_order(listener: ListenerView, calls: Seq<WriteCall>)
    requires
        listener.wf(),
        listener.phase is Streaming,
        forall|i: int| 0 <= i < calls.len() ==> stamp_text(#[trigger] calls[i].now) is Some,
    ensures
        ({
            let after = listener.after(deliveries(calls));
            &&& after.wf()
            &&& after.phase is Streaming
            &&& after.recorder == listener.recorder.written_all(calls)
            &&& after.bytes == listener.counted(calls)
            &&& after.fault == listener.fault
        }),
    decreases calls.len(),
{
    if calls.len() > 0 {
        let earlier = calls.drop_last();
        let last = calls.last();
        law_chunks_reach_the_recorder_in_order(listener, earlier);
        let before = listener.after(deliveries(earlier));
        let arrival = Report { event: EventView::Chunk(last.data), now: last.now };
        let appended = Report { event: EventView::Appended(last.outcome), now: last.now };
        let first = deliveries(earlier).push(arrival);
        assert(deliveries(calls) == first.push(appended));
        assert(first.drop_last() == deliveries(earlier));
        assert(deliveries(calls).drop_last() == first);
        assert(listener.after(first) == before.next(arrival.event, arrival.now).0);
        assert(stamp_text(calls[calls.len() - 1].now) is Some);
        assert(before.recorder.target(last.now) is Some);
    }
}

impl ListenerView {
    /// The state after the ends of `n` sleeps were reported, one after the
    /// other.
    pub open spec fn slept(self, n: nat) -> ListenerView
        decreases n,
    {
        if n == 0 {
            self
        } else {
            self.slept((n - 1) as nat).next(EventView::Slept, 0).0
        }
    }

    /// The milliseconds of sleep asked for over the first `n` sleeps of a
    /// pause.
    pub open spec fn pause_length(self, n: nat) -> nat
        decreases n,
    {
        if n == 0 {
            0
        } else {
            self.pause_length((n - 1) as nat) + match self.slept((n - 1) as nat).phase {
                PhaseView::Paused { waited } => self.slept((n - 1) as nat).interval(waited) as nat,
                _ => 0,
            }
        }
    }
}

/// Cancellation reported during a pause is honoured at once: the listener
/// ends and is told to leave without another sleep or attempt, however much
/// of the timeout is left. As no sleep of a pause is longer than the
/// polling interval, a caller that reports cancellation in place of the end
/// of the sleep it was cut short in is never held longer than that.
pub proof fn law_cancelled_pause_ends_at_once(listener: ListenerView, waited: u64)
    requires
        listener.wf(),
        listener.phase == (PhaseView::Paused { waited }),
    ensures
        listener.awaited() == (ActionView::Sleep { interval: listener.interval(waited) }),
        0 < listener.interval(waited) <= SLEEP_INTERVAL,
        listener.pausing(EventView::Cancelled).1 is Exit,
        listener.pausing(EventView::Cancelled).0.phase is Terminated,
        listener.pausing(EventView::Cancelled).0.fault == Some(Error::Terminated),
        forall|now: i64| listener.next(EventView::Cancelled, now) == listener.pausing(EventView::Cancelled),
{
}

/// A pause lasts the whole timeout: over a pause that begins now, the sleeps
/// asked for are each as long as the polling interval but for the last,
/// which is as long as what is left; while they add up to less than the
/// timeout the listener goes on pausing, and when they add up to the
/// timeout, and not before, it begins the next attempt. Nothing but the
/// phase changes on the way.
pub proof fn law_pause_sleeps_add_up(listener: ListenerView, n: nat)
    requires
        listener.wf(),
        listener.phase == (PhaseView::Paused { waited: 0 }),
    ensures
        n * SLEEP_INTERVAL < listener.timeout ==> {
            &&& listener.slept(n) == (ListenerView {
                phase: PhaseView::Paused { waited: (n * SLEEP_INTERVAL) as u64 },
                ..listener
            })
            &&& listener.pause_length(n) == n * SLEEP_INTERVAL
            &&& listener.slept(n).awaited() is Sleep
        },
        n > 0 && (n - 1) * SLEEP_INTERVAL < listener.timeout <= n * SLEEP_INTERVAL ==> {
            &&& listener.slept(n) == (ListenerView { phase: PhaseView::Connecting, ..listener })
            &&& listener.pause_length(n) == listener.timeout
            &&& listener.slept(n).awaited() is Connect
        },
    decreases n,
{
    if n > 0 {
        law_pause_sleeps_add_up(listener, (n - 1) as nat);
    }
}

/// What [`Listener::step`] makes of a report during a pause is what
/// [`Listener::pause`] makes of it.
pub proof fn law_step_pauses(listener: ListenerView, event: EventView, now: i64)
    requires
        listener.phase is Paused,
    ensures
        listener.next(event, now) == listener.pausing(event),
{
}

} // verus!
