//! The service as the operating system's service manager sees it: its
//! registration, and the life of the process that the manager starts.

pub mod installer;
pub mod runner;
