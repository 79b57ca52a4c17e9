//! The caller's side of the channel: the bytes to send for a request, and
//! what to make of the bytes that come back.

use crate::ipc::codec::command_bytes;
use crate::ipc::codec::decode_response;
use crate::ipc::codec::encode_command;
use crate::ipc::codec::parse_response;
use crate::ipc::codec::DecodeError;
use crate::ipc::error::fault_error;
use crate::ipc::error::IpcError;
use crate::ipc::error::TransportFault;
use crate::ipc::frame::decode_frame;
use crate::ipc::frame::encode_frame;
use crate::ipc::frame::frame_bytes;
use crate::ipc::frame::scan_frame;
use crate::ipc::frame::FrameScan;
use crate::ipc::frame::FrameStatus;
use crate::ipc::frame::MAX_FRAME_LEN;
use crate::ipc::protocol::IpcCommand;
use crate::ipc::protocol::IpcCommandView;
use crate::ipc::protocol::IpcResponse;
use crate::ipc::protocol::IpcResponseView;
use vstd::prelude::*;

verus! {

/// What a caller does next with the bytes it has received.
#[derive(Debug, PartialEq, Eq)]
pub enum ClientStep {
    /// Read at least this many bytes more.
    NeedMore(usize),
    /// The exchange is over, with this result.
    Done(Result<IpcResponse, IpcError>),
}

/// A `ClientStep` as plain mathematical data.
pub enum ClientStepView {
    NeedMore(int),
    Done(Result<IpcResponseView, IpcError>),
}

impl View for ClientStep {
    type V = ClientStepView;

    open spec fn view(&self) -> ClientStepView {
        match *self {
            ClientStep::NeedMore(missing) => ClientStepView::NeedMore(missing as int),
            ClientStep::Done(result) => ClientStepView::Done(
                match result {
                    Ok(response) => Ok(response@),
                    Err(error) => Err(error),
                },
            ),
        }
    }
}

/// The bytes to send for a command, unless they are more than a frame may
/// hold.
pub open spec fn request_bytes(command: IpcCommandView) -> Result<Seq<u8>, IpcError> {
    if command_bytes(command).len() <= MAX_FRAME_LEN {
        Ok(frame_bytes(command_bytes(command)))
    } else {
        Err(IpcError::TooLarge)
    }
}

/// What the bytes received so far amount to: more are needed, or they hold
/// a frame, which is an answer or is not.
pub open spec fn received(buffer: Seq<u8>) -> ClientStepView {
    match scan_frame(buffer) {
        FrameScan::NeedMore(missing) => ClientStepView::NeedMore(missing),
        FrameScan::Oversized(_) => ClientStepView::Done(
            Err(IpcError::Protocol(DecodeError::Malformed)),
        ),
        FrameScan::Complete { payload, consumed } => ClientStepView::Done(
            match parse_response(payload) {
                Ok(response) => Ok(response),
                Err(error) => Err(IpcError::Protocol(error)),
            },
        ),
    }
}

/// The caller's stub.
pub struct IpcClient {
    timeout_ms: u64,
}

impl IpcClient {
    /// A stub that waits `timeout_ms` for an answer.
    pub fn new(timeout_ms: u64) -> (client: IpcClient)
        ensures
            client.wait_limit() == timeout_ms,
    {
        IpcClient { timeout_ms }
    }

    /// The time that the stub waits for an answer, in milliseconds.
    pub closed spec fn wait_limit(&self) -> u64 {
        self.timeout_ms
    }

    /// The time that the stub waits for an answer, in milliseconds.
    pub fn timeout_ms(&self) -> (timeout: u64)
        ensures
            timeout == self.wait_limit(),
    {
        self.timeout_ms
    }

    /// The bytes to send for `command`: its frame.
    pub fn request(&self, command: &IpcCommand) -> (result: Result<Vec<u8>, IpcError>)
        ensures
            result matches Ok(bytes) ==> request_bytes(command@) == Ok::<Seq<u8>, IpcError>(bytes@),
            result matches Err(error) ==> request_bytes(command@) == Err::<Seq<u8>, IpcError>(
                error,
            ),
    {
        let payload = encode_command(command);
        match encode_frame(payload.as_slice()) {
            Ok(frame) => Ok(frame),
            Err(_) => Err(IpcError::TooLarge),
        }
    }

    /// Judges the bytes received so far.
    pub fn on_bytes(&self, buffer: &[u8]) -> (step: ClientStep)
        ensures
            step@ == received(buffer@),
    {
        match decode_frame(buffer) {
            FrameStatus::NeedMore(missing) => ClientStep::NeedMore(missing),
            FrameStatus::Oversized(_) => ClientStep::Done(
                Err(IpcError::Protocol(DecodeError::Malformed)),
            ),
            FrameStatus::Complete { payload, consumed } => {
                match decode_response(payload.as_slice()) {
                    Ok(response) => ClientStep::Done(Ok(response)),
                    Err(error) => ClientStep::Done(Err(IpcError::Protocol(error))),
                }
            },
        }
    }

    /// The result of an exchange that the transport cut short.
    pub fn on_fault(&self, fault: TransportFault) -> (result: Result<IpcResponse, IpcError>)
        ensures
            result == Err::<IpcResponse, IpcError>(fault_error(fault)),
    {
        Err(IpcError::from_fault(fault))
    }
}

} // verus!
