//! Resilient capture of a live HTTP byte stream into rotated files.
//!
//! The crate holds the decisions of the capture pipeline as state machines
//! over plain values: which file a chunk goes to, when a file is closed, when
//! to reconnect, when to stop, how long a disk sample stays fresh. Network,
//! file and signal handling live with the caller, which performs each action
//! the library asks for and reports what happened.

pub mod error;
pub mod launcher;
pub mod listener;
pub mod monitor;
pub mod settings;
pub mod storage;
