//! Persistence: the rotating recorder and the disk space inspector.

pub mod disk_inspector;
pub mod error;
pub mod recorder;
