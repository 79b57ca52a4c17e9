//! Decision logic of the Stelliberty background service and of the native hub
//! that talks to it.
//!
//! The service runs with elevated rights, supervises the proxy core as its
//! one child process, and takes requests from unprivileged callers over a
//! local channel. Everything here is a function from plain values to plain
//! values: the callers own the sockets, the child process and the operating
//! system's service manager, and hand this crate what they observed.
//!
//! - `cli`: the subcommands of the service executable and the rights they
//!   need.
//! - `service`: registration with the service manager, and the life of the
//!   service process.
//! - `ipc`: the messages of the channel, their bytes, and both ends of it.
//! - `process`: the supervisor of the proxy core and the output it keeps.
//! - `system`, `clash`: what the hub sets up for the user interface.

pub mod clash;
pub mod cli;
pub mod ipc;
pub mod process;
pub mod service;
pub mod system;
