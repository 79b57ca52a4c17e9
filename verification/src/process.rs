//! Supervision of the proxy core: the one child process that the service
//! starts, watches and stops, and the output it keeps of it.

pub mod laws;
pub mod log_buffer;
pub mod supervisor;
