//! The bytes of a message.
//!
//! A message starts with one byte that names its variant, so that a reader
//! can tell a variant it does not know from one that is damaged. The fields
//! follow in the encodings of `wire`.

use crate::ipc::protocol::ErrorKind;
use crate::ipc::protocol::IpcCommand;
use crate::ipc::protocol::IpcCommandView;
use crate::ipc::protocol::IpcResponse;
use crate::ipc::protocol::IpcResponseView;
use crate::ipc::protocol::ManagedProcess;
use crate::ipc::protocol::ManagedProcessView;
use crate::ipc::protocol::ProcessStatus;
use crate::ipc::protocol::ResponsePayload;
use crate::ipc::protocol::ResponsePayloadView;
use crate::ipc::wire::i32_bytes;
use crate::ipc::wire::lemma_i32_bytes_unique;
use crate::ipc::wire::lemma_i32_round_trip;
use crate::ipc::wire::lemma_text_bytes_unique;
use crate::ipc::wire::lemma_text_round_trip;
use crate::ipc::wire::lemma_texts_bytes_unique;
use crate::ipc::wire::lemma_texts_round_trip;
use crate::ipc::wire::lemma_u32_at_bounds;
use crate::ipc::wire::lemma_u32_bytes_unique;
use crate::ipc::wire::lemma_u32_round_trip;
use crate::ipc::wire::lemma_u64_at_bounds;
use crate::ipc::wire::lemma_u64_bytes_unique;
use crate::ipc::wire::lemma_u64_round_trip;
use crate::ipc::wire::parse_i32;
use crate::ipc::wire::parse_text;
use crate::ipc::wire::parse_texts;
use crate::ipc::wire::parse_u32;
use crate::ipc::wire::parse_u64;
use crate::ipc::wire::read_i32;
use crate::ipc::wire::read_text;
use crate::ipc::wire::read_texts;
use crate::ipc::wire::read_u32;
use crate::ipc::wire::read_u64;
use crate::ipc::wire::text_bytes;
use crate::ipc::wire::text_fits;
use crate::ipc::wire::texts_bytes;
use crate::ipc::wire::texts_fit;
use crate::ipc::wire::u32_bytes;
use crate::ipc::wire::u64_bytes;
use crate::ipc::wire::write_i32;
use crate::ipc::wire::write_text;
use crate::ipc::wire::write_texts;
use crate::ipc::wire::write_u32;
use crate::ipc::wire::write_u64;
use vstd::prelude::*;

verus! {

/// First byte of `Start`.
pub const TAG_START: u8 = 1;

/// First byte of `Stop`.
pub const TAG_STOP: u8 = 2;

/// First byte of `Status`.
pub const TAG_STATUS: u8 = 3;

/// First byte of `GetLogs`.
pub const TAG_GET_LOGS: u8 = 4;

/// First byte of a successful answer.
pub const TAG_SUCCESS: u8 = 128;

/// First byte of a refusal.
pub const TAG_FAILURE: u8 = 129;

/// Why some bytes are not a message.
#[derive(Clone, Copy, Debug, PartialEq, Eq, Structural)]
pub enum DecodeError {
    /// There are no bytes at all.
    Empty,
    /// The first byte names no variant known here.
    UnknownTag(u8),
    /// The variant is known, but its fields are cut short, damaged, or
    /// followed by bytes that do not belong.
    Malformed,
}

/// Whether a command's texts are short enough to be written.
pub open spec fn command_fits(command: IpcCommandView) -> bool {
    match command {
        IpcCommandView::Start { config_path, extra_args } => text_fits(config_path) && texts_fit(
            extra_args,
        ),
        _ => true,
    }
}

/// The bytes of a command.
pub open spec fn command_bytes(command: IpcCommandView) -> Seq<u8> {
    match command {
        IpcCommandView::Start { config_path, extra_args } => seq![TAG_START] + text_bytes(
            config_path,
        ) + texts_bytes(extra_args),
        IpcCommandView::Stop => seq![TAG_STOP],
        IpcCommandView::Status => seq![TAG_STATUS],
        IpcCommandView::GetLogs { max_lines } => seq![TAG_GET_LOGS] + u32_bytes(max_lines),
    }
}

/// The command that some bytes spell, or why they spell none.
pub open spec fn parse_command(bytes: Seq<u8>) -> Result<IpcCommandView, DecodeError> {
    if bytes.len() == 0 {
        Err(DecodeError::Empty)
    } else if bytes[0] == TAG_START {
        match parse_text(bytes, 1) {
            Some((config_path, next)) => match parse_texts(bytes, next) {
                Some((extra_args, end)) => if end == bytes.len() {
                    Ok(IpcCommandView::Start { config_path, extra_args })
                } else {
                    Err(DecodeError::Malformed)
                },
                None => Err(DecodeError::Malformed),
            },
            None => Err(DecodeError::Malformed),
        }
    } else if bytes[0] == TAG_STOP {
        if bytes.len() == 1 {
            Ok(IpcCommandView::Stop)
        } else {
            Err(DecodeError::Malformed)
        }
    } else if bytes[0] == TAG_STATUS {
        if bytes.len() == 1 {
            Ok(IpcCommandView::Status)
        } else {
            Err(DecodeError::Malformed)
        }
    } else if bytes[0] == TAG_GET_LOGS {
        match parse_u32(bytes, 1) {
            Some((max_lines, end)) => if end == bytes.len() {
                Ok(IpcCommandView::GetLogs { max_lines })
            } else {
                Err(DecodeError::Malformed)
            },
            None => Err(DecodeError::Malformed),
        }
    } else {
        Err(DecodeError::UnknownTag(bytes[0]))
    }
}

/// Decoding the bytes of a command gives the command back.
#[verifier::rlimit(50)]
pub proof fn lemma_command_round_trip(command: IpcCommandView)
    requires
        command_fits(command),
    ensures
        parse_command(command_bytes(command)) == Ok::<IpcCommandView, DecodeError>(command),
{
    let bytes = command_bytes(command);
    match command {
        IpcCommandView::Start { config_path, extra_args } => {
            let first = text_bytes(config_path);
            let second = texts_bytes(extra_args);
            let middle = 1 + first.len() as int;
            assert(bytes.subrange(1, middle) =~= first);
            lemma_text_round_trip(config_path, bytes, 1);
            assert(bytes.subrange(middle, middle + second.len()) =~= second);
            lemma_texts_round_trip(extra_args, bytes, middle);
        },
        IpcCommandView::Stop => {},
        IpcCommandView::Status => {},
        IpcCommandView::GetLogs { max_lines } => {
            assert(bytes.subrange(1, 5) =~= u32_bytes(max_lines));
            lemma_u32_round_trip(max_lines, bytes, 1);
        },
    }
}

/// Writes a command as bytes.
pub fn encode_command(command: &IpcCommand) -> (bytes: Vec<u8>)
    ensures
        command_fits(command@),
        bytes@ == command_bytes(command@),
{
    let mut out: Vec<u8> = Vec::new();
    match command {
        IpcCommand::Start { config_path, extra_args } => {
            out.push(TAG_START);
            write_text(&mut out, config_path.as_str());
            write_texts(&mut out, extra_args);
        },
        IpcCommand::Stop => {
            out.push(TAG_STOP);
        },
        IpcCommand::Status => {
            out.push(TAG_STATUS);
        },
        IpcCommand::GetLogs { max_lines } => {
            out.push(TAG_GET_LOGS);
            write_u32(&mut out, *max_lines);
        },
    }
    assert(out@ =~= command_bytes(command@));
    out
}

/// Reads a command from the bytes of one message.
pub fn decode_command(bytes: &[u8]) -> (result: Result<IpcCommand, DecodeError>)
    ensures
        result matches Ok(command) ==> parse_command(bytes@) == Ok::<IpcCommandView, DecodeError>(
            command@,
        ),
        result matches Err(error) ==> parse_command(bytes@) == Err::<IpcCommandView, DecodeError>(
            error,
        ),
{
    if bytes.len() == 0 {
        return Err(DecodeError::Empty);
    }
    let tag = bytes[0];
    if tag == TAG_START {
        match read_text(bytes, 1) {
            Some((config_path, next)) => match read_texts(bytes, next) {
                Some((extra_args, end)) => {
                    if end == bytes.len() {
                        Ok(IpcCommand::Start { config_path, extra_args })
                    } else {
                        Err(DecodeError::Malformed)
                    }
                },
                None => Err(DecodeError::Malformed),
            },
            None => Err(DecodeError::Malformed),
        }
    } else if tag == TAG_STOP {
        if bytes.len() == 1 {
            Ok(IpcCommand::Stop)
        } else {
            Err(DecodeError::Malformed)
        }
    } else if tag == TAG_STATUS {
        if bytes.len() == 1 {
            Ok(IpcCommand::Status)
        } else {
            Err(DecodeError::Malformed)
        }
    } else if tag == TAG_GET_LOGS {
        match read_u32(bytes, 1) {
            Some((max_lines, end)) => {
                if end == bytes.len() {
                    Ok(IpcCommand::GetLogs { max_lines })
                } else {
                    Err(DecodeError::Malformed)
                }
            },
            None => Err(DecodeError::Malformed),
        }
    } else {
        Err(DecodeError::UnknownTag(tag))
    }
}

/// The bytes of a process status: one byte for the variant, then the code
/// where the variant has one.
pub open spec fn status_bytes(status: ProcessStatus) -> Seq<u8> {
    match status {
        ProcessStatus::NotRunning => seq![0u8],
        ProcessStatus::Running => seq![1u8],
        ProcessStatus::Exited(code) => seq![2u8] + i32_bytes(code),
        ProcessStatus::Crashed(code) => seq![3u8] + i32_bytes(code),
    }
}

/// Reads a process status at `at`.
pub open spec fn parse_status(bytes: Seq<u8>, at: int) -> Option<(ProcessStatus, int)> {
    if 0 <= at < bytes.len() {
        if bytes[at] == 0 {
            Some((ProcessStatus::NotRunning, at + 1))
        } else if bytes[at] == 1 {
            Some((ProcessStatus::Running, at + 1))
        } else if bytes[at] == 2 {
            match parse_i32(bytes, at + 1) {
                Some((code, next)) => Some((ProcessStatus::Exited(code), next)),
                None => None,
            }
        } else if bytes[at] == 3 {
            match parse_i32(bytes, at + 1) {
                Some((code, next)) => Some((ProcessStatus::Crashed(code), next)),
                None => None,
            }
        } else {
            None
        }
    } else {
        None
    }
}

/// Whether a snapshot's texts are short enough to be written.
pub open spec fn process_fits(process: ManagedProcessView) -> bool {
    text_fits(process.executable_path) && texts_fit(process.arguments)
}

/// The bytes of a snapshot: pid, path, arguments, start time, status.
pub open spec fn process_bytes(process: ManagedProcessView) -> Seq<u8> {
    u32_bytes(process.pid) + text_bytes(process.executable_path) + texts_bytes(process.arguments)
        + u64_bytes(process.start_time) + status_bytes(process.status)
}

/// Reads a snapshot at `at`.
pub open spec fn parse_process(bytes: Seq<u8>, at: int) -> Option<(ManagedProcessView, int)> {
    match parse_u32(bytes, at) {
        Some((pid, after_pid)) => match parse_text(bytes, after_pid) {
            Some((executable_path, after_path)) => match parse_texts(bytes, after_path) {
                Some((arguments, after_arguments)) => match parse_u64(bytes, after_arguments) {
                    Some((start_time, after_time)) => match parse_status(bytes, after_time) {
                        Some((status, end)) => Some(
                            (
                                ManagedProcessView {
                                    pid,
                                    executable_path,
                                    arguments,
                                    start_time,
                                    status,
                                },
                                end,
                            ),
                        ),
                        None => None,
                    },
                    None => None,
                },
                None => None,
            },
            None => None,
        },
        None => None,
    }
}

/// The byte that stands for an error kind.
pub open spec fn kind_code(kind: ErrorKind) -> u8 {
    match kind {
        ErrorKind::ProtocolError => 1,
        ErrorKind::AlreadyRunning => 2,
        ErrorKind::SpawnFailed => 3,
        ErrorKind::StopTimedOut => 4,
    }
}

/// The error kind that a byte stands for, if any.
pub open spec fn kind_of_code(code: u8) -> Option<ErrorKind> {
    if code == 1 {
        Some(ErrorKind::ProtocolError)
    } else if code == 2 {
        Some(ErrorKind::AlreadyRunning)
    } else if code == 3 {
        Some(ErrorKind::SpawnFailed)
    } else if code == 4 {
        Some(ErrorKind::StopTimedOut)
    } else {
        None
    }
}

/// Whether an answer's texts are short enough to be written.
pub open spec fn response_fits(response: IpcResponseView) -> bool {
    match response {
        IpcResponseView::Success { payload } => match payload {
            ResponsePayloadView::Ack => true,
            ResponsePayloadView::Status(process) => process_fits(process),
            ResponsePayloadView::Logs(lines) => texts_fit(lines),
        },
        IpcResponseView::Failure { kind, message } => text_fits(message),
    }
}

/// The bytes of an answer.
pub open spec fn response_bytes(response: IpcResponseView) -> Seq<u8> {
    match response {
        IpcResponseView::Success { payload } => match payload {
            ResponsePayloadView::Ack => seq![TAG_SUCCESS, 0u8],
            ResponsePayloadView::Status(process) => seq![TAG_SUCCESS, 1u8] + process_bytes(
                process,
            ),
            ResponsePayloadView::Logs(lines) => seq![TAG_SUCCESS, 2u8] + texts_bytes(lines),
        },
        IpcResponseView::Failure { kind, message } => seq![TAG_FAILURE, kind_code(kind)]
            + text_bytes(message),
    }
}

/// The answer that some bytes spell, or why they spell none.
pub open spec fn parse_response(bytes: Seq<u8>) -> Result<IpcResponseView, DecodeError> {
    if bytes.len() == 0 {
        Err(DecodeError::Empty)
    } else if bytes[0] == TAG_SUCCESS {
        if bytes.len() < 2 {
            Err(DecodeError::Malformed)
        } else if bytes[1] == 0 {
            if bytes.len() == 2 {
                Ok(IpcResponseView::Success { payload: ResponsePayloadView::Ack })
            } else {
                Err(DecodeError::Malformed)
            }
        } else if bytes[1] == 1 {
            match parse_process(bytes, 2) {
                Some((process, end)) => if end == bytes.len() {
                    Ok(IpcResponseView::Success { payload: ResponsePayloadView::Status(process) })
                } else {
                    Err(DecodeError::Malformed)
                },
                None => Err(DecodeError::Malformed),
            }
        } else if bytes[1] == 2 {
            match parse_texts(bytes, 2) {
                Some((lines, end)) => if end == bytes.len() {
                    Ok(IpcResponseView::Success { payload: ResponsePayloadView::Logs(lines) })
                } else {
                    Err(DecodeError::Malformed)
                },
                None => Err(DecodeError::Malformed),
            }
        } else {
            Err(DecodeError::Malformed)
        }
    } else if bytes[0] == TAG_FAILURE {
        if bytes.len() < 2 {
            Err(DecodeError::Malformed)
        } else {
            match kind_of_code(bytes[1]) {
                Some(kind) => match parse_text(bytes, 2) {
                    Some((message, end)) => if end == bytes.len() {
                        Ok(IpcResponseView::Failure { kind, message })
                    } else {
                        Err(DecodeError::Malformed)
                    },
                    None => Err(DecodeError::Malformed),
                },
                None => Err(DecodeError::Malformed),
            }
        }
    } else {
        Err(DecodeError::UnknownTag(bytes[0]))
    }
}

/// Reading back the bytes of a status gives the status, wherever they stand.
pub proof fn lemma_status_round_trip(status: ProcessStatus, bytes: Seq<u8>, at: int)
    requires
        0 <= at,
        at + status_bytes(status).len() <= bytes.len(),
        bytes.subrange(at, at + status_bytes(status).len()) == status_bytes(status),
    ensures
        parse_status(bytes, at) == Some((status, at + status_bytes(status).len())),
{
    let window = bytes.subrange(at, at + status_bytes(status).len());
    assert(bytes[at] == window[0]);
    match status {
        ProcessStatus::NotRunning => {},
        ProcessStatus::Running => {},
        ProcessStatus::Exited(code) => {
            assert(bytes.subrange(at + 1, at + 5) =~= window.subrange(1, 5));
            assert(window.subrange(1, 5) =~= i32_bytes(code));
            lemma_i32_round_trip(code, bytes, at + 1);
        },
        ProcessStatus::Crashed(code) => {
            assert(bytes.subrange(at + 1, at + 5) =~= window.subrange(1, 5));
            assert(window.subrange(1, 5) =~= i32_bytes(code));
            lemma_i32_round_trip(code, bytes, at + 1);
        },
    }
}

/// Reading back the bytes of a snapshot gives the snapshot, wherever they
/// stand.
#[verifier::rlimit(50)]
pub proof fn lemma_process_round_trip(process: ManagedProcessView, bytes: Seq<u8>, at: int)
    requires
        process_fits(process),
        0 <= at,
        at + process_bytes(process).len() <= bytes.len(),
        bytes.subrange(at, at + process_bytes(process).len()) == process_bytes(process),
    ensures
        parse_process(bytes, at) == Some((process, at + process_bytes(process).len())),
{
    let window = bytes.subrange(at, at + process_bytes(process).len());
    let path = text_bytes(process.executable_path);
    let arguments = texts_bytes(process.arguments);
    let status = status_bytes(process.status);
    let a = 4int;
    let b = a + path.len();
    let c = b + arguments.len();
    let d = c + 8;
    let e = d + status.len();
    assert(window.len() == e);
    assert(bytes.subrange(at, at + a) =~= window.subrange(0, a));
    assert(window.subrange(0, a) =~= u32_bytes(process.pid));
    lemma_u32_round_trip(process.pid, bytes, at);
    assert(bytes.subrange(at + a, at + b) =~= window.subrange(a, b));
    assert(window.subrange(a, b) =~= path);
    lemma_text_round_trip(process.executable_path, bytes, at + a);
    assert(bytes.subrange(at + b, at + c) =~= window.subrange(b, c));
    assert(window.subrange(b, c) =~= arguments);
    lemma_texts_round_trip(process.arguments, bytes, at + b);
    assert(bytes.subrange(at + c, at + d) =~= window.subrange(c, d));
    assert(window.subrange(c, d) =~= u64_bytes(process.start_time));
    lemma_u64_round_trip(process.start_time, bytes, at + c);
    assert(bytes.subrange(at + d, at + e) =~= window.subrange(d, e));
    assert(window.subrange(d, e) =~= status);
    lemma_status_round_trip(process.status, bytes, at + d);
}

/// Decoding the bytes of an answer that carries a snapshot gives it back.
#[verifier::rlimit(50)]
proof fn lemma_status_answer_round_trip(process: ManagedProcessView)
    requires
        process_fits(process),
    ensures
        parse_response(seq![TAG_SUCCESS, 1u8] + process_bytes(process)) == Ok::<
            IpcResponseView,
            DecodeError,
        >(IpcResponseView::Success { payload: ResponsePayloadView::Status(process) }),
{
    let bytes = seq![TAG_SUCCESS, 1u8] + process_bytes(process);
    assert(bytes.subrange(2, 2 + process_bytes(process).len() as int) =~= process_bytes(process));
    lemma_process_round_trip(process, bytes, 2);
    assert(bytes[0] == TAG_SUCCESS && bytes[1] == 1);
}

/// Decoding the bytes of an answer that carries lines gives it back.
proof fn lemma_logs_answer_round_trip(lines: Seq<Seq<char>>)
    requires
        texts_fit(lines),
    ensures
        parse_response(seq![TAG_SUCCESS, 2u8] + texts_bytes(lines)) == Ok::<
            IpcResponseView,
            DecodeError,
        >(IpcResponseView::Success { payload: ResponsePayloadView::Logs(lines) }),
{
    let bytes = seq![TAG_SUCCESS, 2u8] + texts_bytes(lines);
    assert(bytes.subrange(2, 2 + texts_bytes(lines).len() as int) =~= texts_bytes(lines));
    lemma_texts_round_trip(lines, bytes, 2);
    assert(bytes[0] == TAG_SUCCESS && bytes[1] == 2);
}

/// Decoding the bytes of a refusal gives it back.
proof fn lemma_refusal_round_trip(kind: ErrorKind, message: Seq<char>)
    requires
        text_fits(message),
    ensures
        parse_response(seq![TAG_FAILURE, kind_code(kind)] + text_bytes(message)) == Ok::<
            IpcResponseView,
            DecodeError,
        >(IpcResponseView::Failure { kind, message }),
{
    let bytes = seq![TAG_FAILURE, kind_code(kind)] + text_bytes(message);
    assert(bytes.subrange(2, 2 + text_bytes(message).len() as int) =~= text_bytes(message));
    lemma_text_round_trip(message, bytes, 2);
    assert(bytes[0] == TAG_FAILURE && bytes[1] == kind_code(kind));
    assert(kind_of_code(kind_code(kind)) == Some(kind));
}

/// Decoding the bytes of an answer gives the answer back.
pub proof fn lemma_response_round_trip(response: IpcResponseView)
    requires
        response_fits(response),
    ensures
        parse_response(response_bytes(response)) == Ok::<IpcResponseView, DecodeError>(response),
{
    match response {
        IpcResponseView::Success { payload } => match payload {
            ResponsePayloadView::Ack => {
                let bytes = seq![TAG_SUCCESS, 0u8];
                assert(bytes.len() == 2 && bytes[0] == TAG_SUCCESS && bytes[1] == 0);
                assert(response_bytes(response) == bytes);
            },
            ResponsePayloadView::Status(process) => {
                assert(response_bytes(response) == seq![TAG_SUCCESS, 1u8] + process_bytes(
                    process,
                ));
                lemma_status_answer_round_trip(process);
            },
            ResponsePayloadView::Logs(lines) => {
                assert(response_bytes(response) == seq![TAG_SUCCESS, 2u8] + texts_bytes(lines));
                lemma_logs_answer_round_trip(lines);
            },
        },
        IpcResponseView::Failure { kind, message } => {
            assert(response_bytes(response) == seq![TAG_FAILURE, kind_code(kind)] + text_bytes(
                message,
            ));
            lemma_refusal_round_trip(kind, message);
        },
    }
}

/// The bytes that are read as a status are the bytes of that status.
pub proof fn lemma_status_bytes_unique(bytes: Seq<u8>, at: int)
    requires
        parse_status(bytes, at) is Some,
    ensures
        ({
            let (status, next) = parse_status(bytes, at).unwrap();
            &&& at < next <= bytes.len()
            &&& bytes.subrange(at, next) == status_bytes(status)
        }),
{
    let (status, next) = parse_status(bytes, at).unwrap();
    if bytes[at] == 2 || bytes[at] == 3 {
        lemma_u32_at_bounds(bytes, at + 1);
        lemma_i32_bytes_unique(bytes, at + 1);
        assert(bytes.subrange(at, next) =~= seq![bytes[at]] + bytes.subrange(at + 1, at + 5));
    } else {
        assert(bytes.subrange(at, next) =~= seq![bytes[at]]);
    }
}

/// The bytes that are read as a snapshot are the bytes of that snapshot.
#[verifier::rlimit(50)]
pub proof fn lemma_process_bytes_unique(bytes: Seq<u8>, at: int)
    requires
        parse_process(bytes, at) is Some,
    ensures
        ({
            let (process, next) = parse_process(bytes, at).unwrap();
            &&& process_fits(process)
            &&& at < next <= bytes.len()
            &&& bytes.subrange(at, next) == process_bytes(process)
        }),
{
    let (process, next) = parse_process(bytes, at).unwrap();
    let a = at + 4;
    lemma_u32_at_bounds(bytes, at);
    lemma_u32_bytes_unique(bytes, at);
    let (path, b) = parse_text(bytes, a).unwrap();
    lemma_text_bytes_unique(bytes, a);
    let (arguments, c) = parse_texts(bytes, b).unwrap();
    lemma_texts_bytes_unique(bytes, b);
    let d = c + 8;
    lemma_u64_at_bounds(bytes, c);
    lemma_u64_bytes_unique(bytes, c);
    lemma_status_bytes_unique(bytes, d);
    assert(bytes.subrange(at, next) =~= bytes.subrange(at, a) + bytes.subrange(a, b)
        + bytes.subrange(b, c) + bytes.subrange(c, d) + bytes.subrange(d, next));
}

/// The bytes that are read as a command are the bytes of that command: no
/// command has two spellings.
#[verifier::rlimit(50)]
pub proof fn lemma_command_bytes_unique(bytes: Seq<u8>)
    requires
        parse_command(bytes) is Ok,
    ensures
        command_fits(parse_command(bytes).unwrap()),
        command_bytes(parse_command(bytes).unwrap()) == bytes,
{
    let command = parse_command(bytes).unwrap();
    if bytes[0] == TAG_START {
        let (config_path, next) = parse_text(bytes, 1).unwrap();
        lemma_text_bytes_unique(bytes, 1);
        lemma_texts_bytes_unique(bytes, next);
        assert(bytes =~= seq![TAG_START] + bytes.subrange(1, next) + bytes.subrange(
            next,
            bytes.len() as int,
        ));
    } else if bytes[0] == TAG_GET_LOGS {
        lemma_u32_at_bounds(bytes, 1);
        lemma_u32_bytes_unique(bytes, 1);
        assert(bytes =~= seq![TAG_GET_LOGS] + bytes.subrange(1, 5));
    } else {
        assert(bytes =~= seq![bytes[0]]);
    }
}

/// The bytes that are read as an answer are the bytes of that answer: no
/// answer has two spellings.
#[verifier::rlimit(50)]
pub proof fn lemma_response_bytes_unique(bytes: Seq<u8>)
    requires
        parse_response(bytes) is Ok,
    ensures
        response_fits(parse_response(bytes).unwrap()),
        response_bytes(parse_response(bytes).unwrap()) == bytes,
{
    let response = parse_response(bytes).unwrap();
    let end = bytes.len() as int;
    if bytes[0] == TAG_SUCCESS {
        if bytes[1] == 0 {
            assert(bytes =~= seq![TAG_SUCCESS, 0u8]);
        } else if bytes[1] == 1 {
            lemma_process_bytes_unique(bytes, 2);
            assert(bytes =~= seq![TAG_SUCCESS, 1u8] + bytes.subrange(2, end));
        } else {
            lemma_texts_bytes_unique(bytes, 2);
            assert(bytes =~= seq![TAG_SUCCESS, 2u8] + bytes.subrange(2, end));
        }
    } else {
        let kind = kind_of_code(bytes[1]).unwrap();
        assert(kind_code(kind) == bytes[1]);
        lemma_text_bytes_unique(bytes, 2);
        assert(bytes =~= seq![TAG_FAILURE, bytes[1]] + bytes.subrange(2, end));
    }
}

/// Appends the bytes of a process status.
pub fn write_status(out: &mut Vec<u8>, status: ProcessStatus)
    ensures
        final(out)@ == old(out)@ + status_bytes(status),
{
    match status {
        ProcessStatus::NotRunning => {
            out.push(0);
        },
        ProcessStatus::Running => {
            out.push(1);
        },
        ProcessStatus::Exited(code) => {
            out.push(2);
            write_i32(out, code);
        },
        ProcessStatus::Crashed(code) => {
            out.push(3);
            write_i32(out, code);
        },
    }
    assert(out@ =~= old(out)@ + status_bytes(status));
}

/// Reads a process status at `at`.
pub fn read_status(bytes: &[u8], at: usize) -> (result: Option<(ProcessStatus, usize)>)
    ensures
        result matches Some((status, next)) ==> parse_status(bytes@, at as int) == Some(
            (status, next as int),
        ) && next <= bytes@.len(),
        result is None ==> parse_status(bytes@, at as int) is None,
{
    if at >= bytes.len() {
        return None;
    }
    let code = bytes[at];
    if code == 0 {
        Some((ProcessStatus::NotRunning, at + 1))
    } else if code == 1 {
        Some((ProcessStatus::Running, at + 1))
    } else if code == 2 {
        match read_i32(bytes, at + 1) {
            Some((value, next)) => Some((ProcessStatus::Exited(value), next)),
            None => None,
        }
    } else if code == 3 {
        match read_i32(bytes, at + 1) {
            Some((value, next)) => Some((ProcessStatus::Crashed(value), next)),
            None => None,
        }
    } else {
        None
    }
}

/// Appends the bytes of a snapshot.
pub fn write_process(out: &mut Vec<u8>, process: &ManagedProcess)
    ensures
        process_fits(process@),
        final(out)@ == old(out)@ + process_bytes(process@),
{
    write_u32(out, process.pid);
    write_text(out, process.executable_path.as_str());
    write_texts(out, &process.arguments);
    write_u64(out, process.start_time);
    write_status(out, process.status);
    assert(out@ =~= old(out)@ + process_bytes(process@));
}

/// Reads a snapshot at `at`.
pub fn read_process(bytes: &[u8], at: usize) -> (result: Option<(ManagedProcess, usize)>)
    ensures
        result matches Some((process, next)) ==> parse_process(bytes@, at as int) == Some(
            (process@, next as int),
        ) && next <= bytes@.len(),
        result is None ==> parse_process(bytes@, at as int) is None,
{
    let (pid, after_pid) = match read_u32(bytes, at) {
        Some(found) => found,
        None => {
            return None;
        },
    };
    let (executable_path, after_path) = match read_text(bytes, after_pid) {
        Some(found) => found,
        None => {
            return None;
        },
    };
    let (arguments, after_arguments) = match read_texts(bytes, after_path) {
        Some(found) => found,
        None => {
            return None;
        },
    };
    let (start_time, after_time) = match read_u64(bytes, after_arguments) {
        Some(found) => found,
        None => {
            return None;
        },
    };
    let (status, end) = match read_status(bytes, after_time) {
        Some(found) => found,
        None => {
            return None;
        },
    };
    Some((ManagedProcess { pid, executable_path, arguments, start_time, status }, end))
}

/// The byte that stands for an error kind.
pub fn error_kind_code(kind: ErrorKind) -> (code: u8)
    ensures
        code == kind_code(kind),
{
    match kind {
        ErrorKind::ProtocolError => 1,
        ErrorKind::AlreadyRunning => 2,
        ErrorKind::SpawnFailed => 3,
        ErrorKind::StopTimedOut => 4,
    }
}

/// The error kind that a byte stands for, if any.
pub fn error_kind_of_code(code: u8) -> (kind: Option<ErrorKind>)
    ensures
        kind == kind_of_code(code),
{
    if code == 1 {
        Some(ErrorKind::ProtocolError)
    } else if code == 2 {
        Some(ErrorKind::AlreadyRunning)
    } else if code == 3 {
        Some(ErrorKind::SpawnFailed)
    } else if code == 4 {
        Some(ErrorKind::StopTimedOut)
    } else {
        None
    }
}

/// Writes an answer as bytes.
pub fn encode_response(response: &IpcResponse) -> (bytes: Vec<u8>)
    ensures
        response_fits(response@),
        bytes@ == response_bytes(response@),
{
    let mut out: Vec<u8> = Vec::new();
    match response {
        IpcResponse::Success { payload } => {
            out.push(TAG_SUCCESS);
            match payload {
                ResponsePayload::Ack => {
                    out.push(0);
                },
                ResponsePayload::Status(process) => {
                    out.push(1);
                    write_process(&mut out, process);
                },
                ResponsePayload::Logs(lines) => {
                    out.push(2);
                    write_texts(&mut out, lines);
                },
            }
        },
        IpcResponse::Failure { kind, message } => {
            out.push(TAG_FAILURE);
            out.push(error_kind_code(*kind));
            write_text(&mut out, message.as_str());
        },
    }
    assert(out@ =~= response_bytes(response@));
    out
}

/// Reads an answer from the bytes of one message.
pub fn decode_response(bytes: &[u8]) -> (result: Result<IpcResponse, DecodeError>)
    ensures
        result matches Ok(response) ==> parse_response(bytes@) == Ok::<
            IpcResponseView,
            DecodeError,
        >(response@),
        result matches Err(error) ==> parse_response(bytes@) == Err::<
            IpcResponseView,
            DecodeError,
        >(error),
{
    if bytes.len() == 0 {
        return Err(DecodeError::Empty);
    }
    let tag = bytes[0];
    if tag == TAG_SUCCESS {
        if bytes.len() < 2 {
            return Err(DecodeError::Malformed);
        }
        let shape = bytes[1];
        if shape == 0 {
            if bytes.len() == 2 {
                Ok(IpcResponse::Success { payload: ResponsePayload::Ack })
            } else {
                Err(DecodeError::Malformed)
            }
        } else if shape == 1 {
            match read_process(bytes, 2) {
                Some((process, end)) => {
                    if end == bytes.len() {
                        Ok(IpcResponse::Success { payload: ResponsePayload::Status(process) })
                    } else {
                        Err(DecodeError::Malformed)
                    }
                },
                None => Err(DecodeError::Malformed),
            }
        } else if shape == 2 {
            match read_texts(bytes, 2) {
                Some((lines, end)) => {
                    if end == bytes.len() {
                        Ok(IpcResponse::Success { payload: ResponsePayload::Logs(lines) })
                    } else {
                        Err(DecodeError::Malformed)
                    }
                },
                None => Err(DecodeError::Malformed),
            }
        } else {
            Err(DecodeError::Malformed)
        }
    } else if tag == TAG_FAILURE {
        if bytes.len() < 2 {
            return Err(DecodeError::Malformed);
        }
        match error_kind_of_code(bytes[1]) {
            Some(kind) => match read_text(bytes, 2) {
                Some((message, end)) => {
                    if end == bytes.len() {
                        Ok(IpcResponse::Failure { kind, message })
                    } else {
                        Err(DecodeError::Malformed)
                    }
                },
                None => Err(DecodeError::Malformed),
            },
            None => Err(DecodeError::Malformed),
        }
    } else {
        Err(DecodeError::UnknownTag(tag))
    }
}

} // verus!
