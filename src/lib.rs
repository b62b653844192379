//! CalDAV and vdir calendar access as resumable, I/O-free state machines.
//!
//! Each workflow is a value with a `resume` method: it either finishes,
//! fails, or hands back the I/O it needs next (bytes to write or read on
//! an HTTP connection, or a filesystem request for a vdir), which the
//! caller performs on the transport of its choice before resuming.
pub mod caldav;
pub mod calendar;
pub mod item;
pub mod text;
pub mod vdir;
