//! What can go wrong for a caller of the service, apart from the service
//! turning the request down.

use crate::ipc::codec::DecodeError;
use vstd::prelude::*;

verus! {

/// What the transport did instead of delivering.
#[derive(Clone, Copy, Debug, PartialEq, Eq, Structural)]
pub enum TransportFault {
    /// Nobody listens at the service's endpoint.
    NoListener,
    /// No answer arrived in the time allowed.
    TimedOut,
    /// The connection ended or failed while it was in use.
    Disconnected,
}

/// Why a request got no answer from the service.
#[derive(Clone, Copy, Debug, PartialEq, Eq, Structural)]
pub enum IpcError {
    /// The service is not running: nobody listens at its endpoint.
    ServiceUnavailable,
    /// The service did not answer in time.
    Timeout,
    /// The connection failed.
    Transport,
    /// The service's bytes were not an answer.
    Protocol(DecodeError),
    /// The message is longer than a frame may be.
    TooLarge,
}

/// The error that a transport fault is surfaced as. A missing listener is
/// told apart from every other failure.
pub open spec fn fault_error(fault: TransportFault) -> IpcError {
    match fault {
        TransportFault::NoListener => IpcError::ServiceUnavailable,
        TransportFault::TimedOut => IpcError::Timeout,
        TransportFault::Disconnected => IpcError::Transport,
    }
}

/// The one-line text of an error.
pub open spec fn error_text(error: IpcError) -> Seq<char> {
    match error {
        IpcError::ServiceUnavailable => "the service is not running"@,
        IpcError::Timeout => "the service did not answer in time"@,
        IpcError::Transport => "the connection to the service failed"@,
        IpcError::Protocol(_) => "the service sent bytes that are no answer"@,
        IpcError::TooLarge => "the message is too large"@,
    }
}

impl IpcError {
    /// The error that a transport fault is surfaced as.
    pub fn from_fault(fault: TransportFault) -> (error: IpcError)
        ensures
            error == fault_error(fault),
    {
        match fault {
            TransportFault::NoListener => IpcError::ServiceUnavailable,
            TransportFault::TimedOut => IpcError::Timeout,
            TransportFault::Disconnected => IpcError::Transport,
        }
    }

    /// The one-line text of the error.
    pub fn describe(&self) -> (text: String)
        ensures
            text@ == error_text(*self),
    {
        match self {
            IpcError::ServiceUnavailable => "the service is not running".to_owned(),
            IpcError::Timeout => "the service did not answer in time".to_owned(),
            IpcError::Transport => "the connection to the service failed".to_owned(),
            IpcError::Protocol(_) => "the service sent bytes that are no answer".to_owned(),
            IpcError::TooLarge => "the message is too large".to_owned(),
        }
    }
}

} // verus!
