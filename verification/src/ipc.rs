//! The local channel between an unprivileged caller and the service: the
//! messages, their bytes, and what each side decides.

pub mod client;
pub mod codec;
pub mod error;
pub mod frame;
pub mod laws;
pub mod protocol;
pub mod server;
pub mod wire;

pub use client::IpcClient;
pub use error::IpcError;
pub use protocol::IpcCommand;
pub use protocol::IpcResponse;
pub use server::IpcServer;
