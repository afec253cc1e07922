//! Control plane of the tsusu daemon: the rules by which a single daemon
//! instance starts, serves its control socket and shuts down, and by which a
//! client finds or starts it.
//!
//! Nothing here touches the file system, a socket or a signal. Each component
//! that has to wait for the outside world is a state machine: it names the
//! next action, the caller performs it and reports what happened.

pub mod cli;
pub mod daemon;
pub mod launcher;
pub mod message;
pub mod paths;
pub mod pid;
pub mod session;
