//! Client side of the singleton attachment protocol.
//!
//! When a daemon of this tool is already running, a second invocation attaches
//! to it: it answers the daemon's `shutdown` and `log` calls, relays the keys
//! `x` and `r` as `shutdown` and `restart` notifications, and in the end says
//! whether the process has to exit.
//!
//! The crate holds the decisions and leaves reading and writing to its caller:
//! the caller feeds each thing that happened to [`session::SingletonClient`]
//! and carries out the action it gets back.

pub mod caller;
pub mod handlers;
pub mod keyboard;
pub mod protocol;
pub mod session;
