//! The messages that travel between a caller and the service, and the
//! snapshot of the supervised process that some of them carry.

use crate::ipc::wire::texts_of;
use vstd::prelude::*;

verus! {

/// What the supervisor knows of the proxy core's process.
#[derive(Clone, Copy, Debug, PartialEq, Eq, Structural)]
pub enum ProcessStatus {
    /// No process was started, or the last one was stopped on request.
    NotRunning,
    /// The process was started and has not been seen to end.
    Running,
    /// The process ended by itself with exit code 0.
    Exited(i32),
    /// The process ended by a signal or with a failure code.
    Crashed(i32),
}

/// Snapshot of the supervised process.
#[derive(Clone, Debug, PartialEq, Eq)]
pub struct ManagedProcess {
    pub pid: u32,
    pub executable_path: String,
    pub arguments: Vec<String>,
    pub start_time: u64,
    pub status: ProcessStatus,
}

/// A `ManagedProcess` as plain mathematical data.
pub struct ManagedProcessView {
    pub pid: u32,
    pub executable_path: Seq<char>,
    pub arguments: Seq<Seq<char>>,
    pub start_time: u64,
    pub status: ProcessStatus,
}

impl View for ManagedProcess {
    type V = ManagedProcessView;

    open spec fn view(&self) -> ManagedProcessView {
        ManagedProcessView {
            pid: self.pid,
            executable_path: self.executable_path@,
            arguments: texts_of(self.arguments@),
            start_time: self.start_time,
            status: self.status,
        }
    }
}

/// A request from a caller to the service.
#[derive(Clone, Debug, PartialEq, Eq)]
pub enum IpcCommand {
    /// Start the proxy core on a configuration file.
    Start { config_path: String, extra_args: Vec<String> },
    /// Stop the proxy core.
    Stop,
    /// Report the state of the proxy core.
    Status,
    /// Hand out the newest captured output lines, at most `max_lines`.
    GetLogs { max_lines: u32 },
}

/// An `IpcCommand` as plain mathematical data.
pub enum IpcCommandView {
    Start { config_path: Seq<char>, extra_args: Seq<Seq<char>> },
    Stop,
    Status,
    GetLogs { max_lines: u32 },
}

impl View for IpcCommand {
    type V = IpcCommandView;

    open spec fn view(&self) -> IpcCommandView {
        match *self {
            IpcCommand::Start { config_path, extra_args } => IpcCommandView::Start {
                config_path: config_path@,
                extra_args: texts_of(extra_args@),
            },
            IpcCommand::Stop => IpcCommandView::Stop,
            IpcCommand::Status => IpcCommandView::Status,
            IpcCommand::GetLogs { max_lines } => IpcCommandView::GetLogs { max_lines },
        }
    }
}

/// Why the service turned a request down.
#[derive(Clone, Copy, Debug, PartialEq, Eq, Structural)]
pub enum ErrorKind {
    /// The request's bytes were not a message.
    ProtocolError,
    /// `Start` arrived while the proxy core was running.
    AlreadyRunning,
    /// The proxy core could not be launched.
    SpawnFailed,
    /// The proxy core ignored the request to end and had to be killed.
    StopTimedOut,
}

/// What a successful answer carries.
#[derive(Clone, Debug, PartialEq, Eq)]
pub enum ResponsePayload {
    /// Nothing: the request was carried out.
    Ack,
    /// The state of the proxy core.
    Status(ManagedProcess),
    /// Captured output lines, oldest first.
    Logs(Vec<String>),
}

/// A `ResponsePayload` as plain mathematical data.
pub enum ResponsePayloadView {
    Ack,
    Status(ManagedProcessView),
    Logs(Seq<Seq<char>>),
}

impl View for ResponsePayload {
    type V = ResponsePayloadView;

    open spec fn view(&self) -> ResponsePayloadView {
        match *self {
            ResponsePayload::Ack => ResponsePayloadView::Ack,
            ResponsePayload::Status(process) => ResponsePayloadView::Status(process@),
            ResponsePayload::Logs(lines) => ResponsePayloadView::Logs(texts_of(lines@)),
        }
    }
}

/// The service's answer to a request.
#[derive(Clone, Debug, PartialEq, Eq)]
pub enum IpcResponse {
    /// The request was carried out.
    Success { payload: ResponsePayload },
    /// The request was turned down.
    Failure { kind: ErrorKind, message: String },
}

/// An `IpcResponse` as plain mathematical data.
pub enum IpcResponseView {
    Success { payload: ResponsePayloadView },
    Failure { kind: ErrorKind, message: Seq<char> },
}

impl View for IpcResponse {
    type V = IpcResponseView;

    open spec fn view(&self) -> IpcResponseView {
        match *self {
            IpcResponse::Success { payload } => IpcResponseView::Success { payload: payload@ },
            IpcResponse::Failure { kind, message } => IpcResponseView::Failure {
                kind,
                message: message@,
            },
        }
    }
}

} // verus!
