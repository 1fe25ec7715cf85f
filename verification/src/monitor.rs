//! The health report: uptime, byte counters and free disk space.

pub mod error;

use crate::listener::{Listener, ListenerView};
use crate::monitor::error::Error;
use crate::storage::disk_inspector::{timestamp, MountView};
use vstd::prelude::*;
use vstd::string::*;

verus! {

/// A snapshot of the pipeline.
#[derive(Debug, Clone, Copy, PartialEq, Eq, Structural)]
pub struct Health {
    /// Whole seconds since the monitor was made.
    pub uptime: usize,
    /// Bytes received from the stream.
    pub bytes_received: usize,
    /// Bytes written to the files.
    pub bytes_written: usize,
    /// Bytes free on the disk that holds the files.
    pub bytes_available: usize,
}

/// The answer to one request.
#[derive(Debug, Clone, Copy, PartialEq, Eq, Structural)]
pub struct Response {
    /// The HTTP status.
    pub status: u16,
    /// The snapshot, where the request asked for it.
    pub health: Option<Health>,
}

/// What the server loop reports.
#[derive(Debug, PartialEq, Eq)]
pub enum ServerEvent {
    /// The port is bound.
    Bound,
    /// The port could not be bound; the text is the operating system's
    /// report.
    BindFailed(String),
    /// A connection was accepted.
    Accepted,
    /// Accepting a connection failed.
    AcceptFailed,
    /// The accepted connection has been served.
    Served,
    /// Cancellation fired before the action completed.
    Cancelled,
}

/// What the server loop is to do next.
#[derive(Debug, PartialEq, Eq)]
pub enum ServerAction {
    /// Bind the port on every interface.
    Bind { port: u16 },
    /// Wait for a connection.
    Accept,
    /// Serve the accepted connection, without keep-alive.
    Serve,
    /// Leave with this error.
    Leave(Error),
}

/// The path under which the snapshot is served.
pub open spec fn health_path() -> Seq<char> {
    "/health"@
}

/// `later - earlier`, or zero where the clock went back.
pub open spec fn elapsed(earlier: nat, later: nat) -> nat {
    if later >= earlier {
        (later - earlier) as nat
    } else {
        0
    }
}

/// Assembles health reports and steers the loop that serves them.
#[derive(Debug, PartialEq, Eq)]
pub struct Monitor {
    port: u16,
    start_time: usize,
}

impl Monitor {
    /// The port to serve on.
    pub closed spec fn spec_port(self) -> u16 {
        self.port
    }

    /// The second, counted from the Unix epoch, at which the monitor was
    /// made.
    pub closed spec fn spec_start_time(self) -> nat {
        self.start_time as nat
    }

    /// The snapshot of `listener` at second `now`.
    pub open spec fn snapshot(self, listener: ListenerView, now: nat) -> Health {
        Health {
            uptime: elapsed(self.spec_start_time(), now) as usize,
            bytes_received: listener.bytes as usize,
            bytes_written: listener.recorder.bytes_written as usize,
            bytes_available: listener.recorder.disk.available_bytes as usize,
        }
    }

    /// The answer to a request for `path` when the snapshot is `health`:
    /// the snapshot under the health path, not found under any other.
    pub open spec fn answer(path: Seq<char>, health: Health) -> Response {
        if path == health_path() {
            Response { status: 200, health: Some(health) }
        } else {
            Response { status: 404, health: None }
        }
    }

    /// What the server loop does after `event`.
    pub open spec fn reaction(event: ServerEvent) -> ServerAction {
        match event {
            ServerEvent::Bound => ServerAction::Accept,
            ServerEvent::BindFailed(report) => ServerAction::Leave(Error::PortBindingFailed(report)),
            ServerEvent::Accepted => ServerAction::Serve,
            ServerEvent::AcceptFailed => ServerAction::Accept,
            ServerEvent::Served => ServerAction::Accept,
            ServerEvent::Cancelled => ServerAction::Leave(Error::Terminated),
        }
    }

    /// A monitor for `port`, made at second `now`.
    pub fn new(port: u16, now: usize) -> (monitor: Monitor)
        ensures
            monitor.spec_port() == port,
            monitor.spec_start_time() == now,
    {
        Monitor { port, start_time: now }
    }

    /// The port to serve on.
    pub fn port(&self) -> (port: u16)
        ensures
            port == self.spec_port(),
    {
        self.port
    }

    /// The first action of the server loop: bind the port.
    pub fn start(&self) -> (action: ServerAction)
        ensures
            action == (ServerAction::Bind { port: self.spec_port() }),
    {
        ServerAction::Bind { port: self.port }
    }

    /// The next action of the server loop. A port that cannot be bound and
    /// cancellation end the loop; everything else leads back to waiting for
    /// a connection.
    pub fn step(&self, event: ServerEvent) -> (action: ServerAction)
        ensures
            action == Self::reaction(event),
    {
        match event {
            ServerEvent::Bound => ServerAction::Accept,
            ServerEvent::BindFailed(report) => ServerAction::Leave(Error::PortBindingFailed(report)),
            ServerEvent::Accepted => ServerAction::Serve,
            ServerEvent::AcceptFailed => ServerAction::Accept,
            ServerEvent::Served => ServerAction::Accept,
            ServerEvent::Cancelled => ServerAction::Leave(Error::Terminated),
        }
    }

    /// The snapshot of `listener` at second `now`, from the counters and
    /// the disk sample it holds.
    pub fn report(&self, listener: &Listener, now: usize) -> (health: Health)
        ensures
            health == self.snapshot(listener@, now as nat),
    {
        Health {
            uptime: if now >= self.start_time {
                now - self.start_time
            } else {
                0
            },
            bytes_received: listener.get_bytes(),
            bytes_written: listener.recorder().bytes_written(),
            bytes_available: listener.recorder().disk_inspector().cached(),
        }
    }

    /// Answers a request for `path` with the snapshot `health`.
    pub fn respond(path: &str, health: Health) -> (response: Response)
        ensures
            response == Self::answer(path@, health),
    {
        if String::from_str(path) == String::from_str("/health") {
            Response { status: 200, health: Some(health) }
        } else {
            Response { status: 404, health: None }
        }
    }

    /// Answers a request for `path` at the present second of the system
    /// clock. Under the health path the disk sample of `listener` is
    /// refreshed if it is stale, and the snapshot is taken after that; under
    /// any other path nothing is read and nothing changes.
    pub fn get_health(&self, path: &str, listener: &mut Listener) -> (response: Response)
        ensures
            old(listener)@.wf() ==> final(listener)@.wf(),
            path@ != health_path() ==> final(listener)@ == old(listener)@ && response == (Response {
                status: 404,
                health: None,
            }),
            path@ == health_path() ==> exists|mounts: Seq<MountView>, now: nat|
                final(listener)@ == #[trigger] old(listener)@.sampled(mounts, now) && response
                    == Self::answer(path@, self.snapshot(final(listener)@, now)),
    {
        if String::from_str(path) == String::from_str("/health") {
            let now = timestamp();
            listener.ensure_refreshed(now);
            Self::respond(path, self.report(listener, now))
        } else {
            Response { status: 404, health: None }
        }
    }
}

} // verus!
