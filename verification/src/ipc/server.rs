//! The service's side of the channel: what to do on each request.
//!
//! The server owns the supervisor and is the single lane through which
//! everything that changes the supervised process passes. A request whose
//! handling needs the operating system (a launch, a signal, a wait) is
//! handled in several calls: the server says what is to be done, the caller
//! does it and reports back. Until the answer of such a request is out, the
//! server takes no other request.

use crate::ipc::codec::decode_command;
use crate::ipc::codec::encode_response;
use crate::ipc::codec::parse_command;
use crate::ipc::codec::response_bytes;
use crate::ipc::codec::response_fits;
use crate::ipc::codec::DecodeError;
use crate::ipc::frame::decode_frame;
use crate::ipc::frame::encode_frame;
use crate::ipc::frame::frame_bytes;
use crate::ipc::frame::scan_frame;
use crate::ipc::frame::FrameError;
use crate::ipc::frame::FrameScan;
use crate::ipc::frame::FrameStatus;
use crate::ipc::frame::MAX_FRAME_LEN;
use crate::ipc::protocol::ErrorKind;
use crate::ipc::protocol::IpcCommand;
use crate::ipc::protocol::IpcCommandView;
use crate::ipc::protocol::IpcResponse;
use crate::ipc::protocol::IpcResponseView;
use crate::ipc::protocol::ResponsePayload;
use crate::ipc::protocol::ResponsePayloadView;
use crate::process::log_buffer::newest;
use crate::process::supervisor::ExitReport;
use crate::process::supervisor::GraceDecision;
use crate::process::supervisor::ProcessError;
use crate::process::supervisor::ProcessSupervisor;
use crate::process::supervisor::SpawnOutcome;
use crate::process::supervisor::SpawnRequest;
use crate::process::supervisor::SpawnRequestView;
use crate::process::supervisor::StopAction;
use crate::process::supervisor::SupervisorModel;
use vstd::prelude::*;

verus! {

/// What the server waits for before it takes the next request.
#[derive(Clone, Debug, PartialEq, Eq)]
pub enum Phase {
    /// Nothing: the lane is free.
    Idle,
    /// The outcome of this launch.
    AwaitingSpawn(SpawnRequest),
    /// The end of this child's grace period.
    AwaitingGrace { pid: u32 },
    /// The report that this child was killed.
    AwaitingKill { pid: u32 },
}

/// A `Phase` as plain mathematical data.
pub enum PhaseView {
    Idle,
    AwaitingSpawn(SpawnRequestView),
    AwaitingGrace { pid: u32 },
    AwaitingKill { pid: u32 },
}

impl View for Phase {
    type V = PhaseView;

    open spec fn view(&self) -> PhaseView {
        match *self {
            Phase::Idle => PhaseView::Idle,
            Phase::AwaitingSpawn(request) => PhaseView::AwaitingSpawn(request@),
            Phase::AwaitingGrace { pid } => PhaseView::AwaitingGrace { pid },
            Phase::AwaitingKill { pid } => PhaseView::AwaitingKill { pid },
        }
    }
}

/// What the caller of the server has to do next.
#[derive(Clone, Debug, PartialEq, Eq)]
pub enum ServerStep {
    /// Send this answer; the request is done.
    Reply(IpcResponse),
    /// Launch this command line and report with `on_spawned`.
    Launch(SpawnRequest),
    /// Ask this child to end, wait for it this long, and report with
    /// `on_grace_over`.
    Terminate { pid: u32, grace_ms: u64 },
    /// Kill this child and report with `on_killed`.
    Kill { pid: u32 },
    /// Another request is in flight: offer this one again when its answer
    /// is out.
    Busy,
    /// The report fits nothing that the server waits for; it was dropped.
    Ignored,
}

/// A `ServerStep` as plain mathematical data.
pub enum ServerStepView {
    Reply(IpcResponseView),
    Launch(SpawnRequestView),
    Terminate { pid: u32, grace_ms: u64 },
    Kill { pid: u32 },
    Busy,
    Ignored,
}

impl View for ServerStep {
    type V = ServerStepView;

    open spec fn view(&self) -> ServerStepView {
        match *self {
            ServerStep::Reply(response) => ServerStepView::Reply(response@),
            ServerStep::Launch(request) => ServerStepView::Launch(request@),
            ServerStep::Terminate { pid, grace_ms } => ServerStepView::Terminate { pid, grace_ms },
            ServerStep::Kill { pid } => ServerStepView::Kill { pid },
            ServerStep::Busy => ServerStepView::Busy,
            ServerStep::Ignored => ServerStepView::Ignored,
        }
    }
}

/// What the server makes of the bytes that a connection has delivered.
#[derive(Clone, Debug, PartialEq, Eq)]
pub enum Intake {
    /// No whole message yet: read at least this many bytes more.
    NeedMore(usize),
    /// A whole message arrived, and this is to be done on it.
    Step(ServerStep),
}

/// An `Intake` as plain mathematical data.
pub enum IntakeView {
    NeedMore(int),
    Step(ServerStepView),
}

impl View for Intake {
    type V = IntakeView;

    open spec fn view(&self) -> IntakeView {
        match *self {
            Intake::NeedMore(missing) => IntakeView::NeedMore(missing as int),
            Intake::Step(step) => IntakeView::Step(step@),
        }
    }
}

/// The bytes to send for an answer, unless they are more than a frame may
/// hold.
pub open spec fn reply_bytes(response: IpcResponseView) -> Result<Seq<u8>, FrameError> {
    if response_bytes(response).len() <= MAX_FRAME_LEN {
        Ok(frame_bytes(response_bytes(response)))
    } else {
        Err(FrameError::TooLarge)
    }
}

/// The error kind under which a supervisor's refusal travels.
pub open spec fn kind_of(error: ProcessError) -> ErrorKind {
    match error {
        ProcessError::AlreadyRunning => ErrorKind::AlreadyRunning,
        ProcessError::SpawnFailed => ErrorKind::SpawnFailed,
        ProcessError::StopTimedOut => ErrorKind::StopTimedOut,
    }
}

/// The text that explains why some bytes were not taken as a request.
pub open spec fn decode_error_text(error: DecodeError) -> Seq<char> {
    match error {
        DecodeError::Empty => "empty message"@,
        DecodeError::UnknownTag(_) => "unknown command"@,
        DecodeError::Malformed => "malformed message"@,
    }
}

/// The answer that carries nothing.
pub open spec fn ack() -> ServerStepView {
    ServerStepView::Reply(IpcResponseView::Success { payload: ResponsePayloadView::Ack })
}

/// The answer that turns a request down.
pub open spec fn refusal(kind: ErrorKind, message: Seq<char>) -> ServerStepView {
    ServerStepView::Reply(IpcResponseView::Failure { kind, message })
}

/// The state of a server as plain mathematical data.
pub struct ServerModel {
    pub supervisor: SupervisorModel,
    pub phase: PhaseView,
    /// The grace period that a stopped child is given, in milliseconds.
    pub stop_timeout_ms: u64,
}

impl ServerModel {
    /// What is to be done on a request.
    pub open spec fn command_step(self, command: IpcCommandView) -> ServerStepView {
        if self.phase != PhaseView::Idle {
            ServerStepView::Busy
        } else {
            match command {
                IpcCommandView::Start { config_path, extra_args } => match self.supervisor.plan_start(
                    config_path,
                    extra_args,
                ) {
                    Ok(request) => ServerStepView::Launch(request),
                    Err(error) => refusal(kind_of(error), "the proxy core is already running"@),
                },
                IpcCommandView::Stop => match self.supervisor.plan_stop(self.stop_timeout_ms) {
                    StopAction::Nothing => ack(),
                    StopAction::Terminate { pid, grace_ms } => ServerStepView::Terminate {
                        pid,
                        grace_ms,
                    },
                },
                IpcCommandView::Status => ServerStepView::Reply(
                    IpcResponseView::Success {
                        payload: ResponsePayloadView::Status(self.supervisor.process),
                    },
                ),
                IpcCommandView::GetLogs { max_lines } => ServerStepView::Reply(
                    IpcResponseView::Success {
                        payload: ResponsePayloadView::Logs(
                            newest(self.supervisor.logs, max_lines as nat),
                        ),
                    },
                ),
            }
        }
    }

    /// The state after a request: unchanged, but that the server waits
    /// where it asked for a launch or a termination.
    pub open spec fn after_command(self, command: IpcCommandView) -> Self {
        match self.command_step(command) {
            ServerStepView::Launch(request) => ServerModel {
                phase: PhaseView::AwaitingSpawn(request),
                ..self
            },
            ServerStepView::Terminate { pid, grace_ms } => ServerModel {
                phase: PhaseView::AwaitingGrace { pid },
                ..self
            },
            _ => self,
        }
    }

    /// What is to be done on the outcome of a launch.
    pub open spec fn spawned_step(self, outcome: SpawnOutcome, reason: Seq<char>) -> ServerStepView {
        match self.phase {
            PhaseView::AwaitingSpawn(request) => match self.supervisor.spawn_result(outcome) {
                Ok(_) => ack(),
                Err(error) => refusal(kind_of(error), reason),
            },
            _ => ServerStepView::Ignored,
        }
    }

    /// The state after the outcome of a launch.
    pub open spec fn after_spawned(self, outcome: SpawnOutcome) -> Self {
        match self.phase {
            PhaseView::AwaitingSpawn(request) => ServerModel {
                supervisor: self.supervisor.after_spawn(request, outcome),
                phase: PhaseView::Idle,
                ..self
            },
            _ => self,
        }
    }

    /// What is to be done once the grace period is over.
    pub open spec fn grace_step(self, ended: bool) -> ServerStepView {
        match self.phase {
            PhaseView::AwaitingGrace { pid } => match self.supervisor.grace_decision(pid, ended) {
                GraceDecision::Finished => ack(),
                GraceDecision::Kill { pid } => ServerStepView::Kill { pid },
            },
            _ => ServerStepView::Ignored,
        }
    }

    /// The state once the grace period is over.
    pub open spec fn after_grace(self, ended: bool) -> Self {
        match self.phase {
            PhaseView::AwaitingGrace { pid } => ServerModel {
                supervisor: self.supervisor.after_grace(pid, ended),
                phase: match self.supervisor.grace_decision(pid, ended) {
                    GraceDecision::Finished => PhaseView::Idle,
                    GraceDecision::Kill { pid } => PhaseView::AwaitingKill { pid },
                },
                ..self
            },
            _ => self,
        }
    }

    /// What is to be done once the child was killed.
    pub open spec fn killed_step(self) -> ServerStepView {
        match self.phase {
            PhaseView::AwaitingKill { pid } => match self.supervisor.kill_result(pid) {
                Ok(_) => ack(),
                Err(error) => refusal(
                    kind_of(error),
                    "the proxy core did not end in time and was killed"@,
                ),
            },
            _ => ServerStepView::Ignored,
        }
    }

    /// The state once the child was killed.
    pub open spec fn after_killed(self) -> Self {
        match self.phase {
            PhaseView::AwaitingKill { pid } => ServerModel {
                supervisor: self.supervisor.after_kill(pid),
                phase: PhaseView::Idle,
                ..self
            },
            _ => self,
        }
    }

    /// What is to be done on the bytes of one message.
    pub open spec fn frame_step(self, payload: Seq<u8>) -> ServerStepView {
        match parse_command(payload) {
            Ok(command) => self.command_step(command),
            Err(error) => refusal(ErrorKind::ProtocolError, decode_error_text(error)),
        }
    }

    /// The state after the bytes of one message.
    pub open spec fn after_frame(self, payload: Seq<u8>) -> Self {
        match parse_command(payload) {
            Ok(command) => self.after_command(command),
            Err(error) => self,
        }
    }

    /// What is to be done on the bytes that a connection has delivered so
    /// far. A frame that announces more than a frame may hold is answered
    /// with `ProtocolError`.
    pub open spec fn intake(self, buffer: Seq<u8>) -> IntakeView {
        match scan_frame(buffer) {
            FrameScan::NeedMore(missing) => IntakeView::NeedMore(missing),
            FrameScan::Oversized(_) => IntakeView::Step(
                refusal(ErrorKind::ProtocolError, "message too large"@),
            ),
            FrameScan::Complete { payload, consumed } => IntakeView::Step(self.frame_step(payload)),
        }
    }

    /// The state after the bytes that a connection has delivered so far.
    pub open spec fn after_intake(self, buffer: Seq<u8>) -> Self {
        match scan_frame(buffer) {
            FrameScan::Complete { payload, consumed } => self.after_frame(payload),
            _ => self,
        }
    }

    /// The state after the exit watcher's report, which is taken only
    /// while no request is in flight.
    pub open spec fn after_child_exit(self, pid: u32, report: ExitReport) -> Self {
        if self.phase == PhaseView::Idle {
            ServerModel { supervisor: self.supervisor.after_exit(pid, report), ..self }
        } else {
            self
        }
    }
}

/// The server.
pub struct IpcServer {
    supervisor: ProcessSupervisor,
    phase: Phase,
    stop_timeout_ms: u64,
}

impl View for IpcServer {
    type V = ServerModel;

    closed spec fn view(&self) -> ServerModel {
        ServerModel {
            supervisor: self.supervisor@,
            phase: self.phase@,
            stop_timeout_ms: self.stop_timeout_ms,
        }
    }
}

/// The error kind under which a supervisor's refusal travels.
pub fn error_kind_of(error: ProcessError) -> (kind: ErrorKind)
    ensures
        kind == kind_of(error),
{
    match error {
        ProcessError::AlreadyRunning => ErrorKind::AlreadyRunning,
        ProcessError::SpawnFailed => ErrorKind::SpawnFailed,
        ProcessError::StopTimedOut => ErrorKind::StopTimedOut,
    }
}

/// The text that explains why some bytes were not taken as a request.
pub fn describe_decode_error(error: DecodeError) -> (text: String)
    ensures
        text@ == decode_error_text(error),
{
    match error {
        DecodeError::Empty => "empty message".to_owned(),
        DecodeError::UnknownTag(_) => "unknown command".to_owned(),
        DecodeError::Malformed => "malformed message".to_owned(),
    }
}

impl IpcServer {
    /// A server around `supervisor` with a free lane, which gives a child
    /// that is stopped `stop_timeout_ms` to end.
    pub fn new(supervisor: ProcessSupervisor, stop_timeout_ms: u64) -> (server: IpcServer)
        ensures
            server@ == (ServerModel {
                supervisor: supervisor@,
                phase: PhaseView::Idle,
                stop_timeout_ms,
            }),
    {
        IpcServer { supervisor, phase: Phase::Idle, stop_timeout_ms }
    }

    /// Whether no request is in flight.
    pub fn is_idle(&self) -> (idle: bool)
        ensures
            idle == (self@.phase == PhaseView::Idle),
    {
        match self.phase {
            Phase::Idle => true,
            _ => false,
        }
    }

    /// Takes a request. While another one is in flight the answer is
    /// `Busy` and nothing changes.
    pub fn on_command(&mut self, command: IpcCommand) -> (step: ServerStep)
        ensures
            step@ == old(self)@.command_step(command@),
            final(self)@ == old(self)@.after_command(command@),
    {
        if !self.is_idle() {
            return ServerStep::Busy;
        }
        match command {
            IpcCommand::Start { config_path, extra_args } => {
                match self.supervisor.start(config_path, extra_args) {
                    Ok(request) => {
                        let kept = SpawnRequest {
                            executable_path: request.executable_path.clone(),
                            arguments: crate::process::supervisor::clone_texts(&request.arguments),
                        };
                        self.phase = Phase::AwaitingSpawn(kept);
                        ServerStep::Launch(request)
                    },
                    Err(error) => ServerStep::Reply(
                        IpcResponse::Failure {
                            kind: error_kind_of(error),
                            message: "the proxy core is already running".to_owned(),
                        },
                    ),
                }
            },
            IpcCommand::Stop => {
                match self.supervisor.stop(self.stop_timeout_ms) {
                    StopAction::Nothing => ServerStep::Reply(
                        IpcResponse::Success { payload: ResponsePayload::Ack },
                    ),
                    StopAction::Terminate { pid, grace_ms } => {
                        self.phase = Phase::AwaitingGrace { pid };
                        ServerStep::Terminate { pid, grace_ms }
                    },
                }
            },
            IpcCommand::Status => ServerStep::Reply(
                IpcResponse::Success { payload: ResponsePayload::Status(self.supervisor.status()) },
            ),
            IpcCommand::GetLogs { max_lines } => ServerStep::Reply(
                IpcResponse::Success {
                    payload: ResponsePayload::Logs(self.supervisor.logs(max_lines)),
                },
            ),
        }
    }

    /// Takes the bytes of one message. Bytes that are no request are
    /// answered with `ProtocolError`, and nothing changes.
    pub fn on_frame(&mut self, payload: &[u8]) -> (step: ServerStep)
        ensures
            step@ == old(self)@.frame_step(payload@),
            final(self)@ == old(self)@.after_frame(payload@),
    {
        match decode_command(payload) {
            Ok(command) => self.on_command(command),
            Err(error) => ServerStep::Reply(
                IpcResponse::Failure {
                    kind: ErrorKind::ProtocolError,
                    message: describe_decode_error(error),
                },
            ),
        }
    }

    /// Takes the bytes that a connection has delivered so far: the start
    /// of the stream. Nothing changes until a whole message is there.
    pub fn on_bytes(&mut self, buffer: &[u8]) -> (intake: Intake)
        ensures
            intake@ == old(self)@.intake(buffer@),
            final(self)@ == old(self)@.after_intake(buffer@),
    {
        match decode_frame(buffer) {
            FrameStatus::NeedMore(missing) => Intake::NeedMore(missing),
            FrameStatus::Oversized(_) => Intake::Step(
                ServerStep::Reply(
                    IpcResponse::Failure {
                        kind: ErrorKind::ProtocolError,
                        message: "message too large".to_owned(),
                    },
                ),
            ),
            FrameStatus::Complete { payload, consumed } => Intake::Step(
                self.on_frame(payload.as_slice()),
            ),
        }
    }

    /// The bytes to send for an answer: its frame.
    pub fn reply(response: &IpcResponse) -> (result: Result<Vec<u8>, FrameError>)
        ensures
            response_fits(response@),
            result matches Ok(bytes) ==> reply_bytes(response@) == Ok::<Seq<u8>, FrameError>(
                bytes@,
            ),
            result matches Err(error) ==> reply_bytes(response@) == Err::<Seq<u8>, FrameError>(
                error,
            ),
    {
        let payload = encode_response(response);
        encode_frame(payload.as_slice())
    }

    /// Takes the outcome of the launch that the server asked for; `reason`
    /// is the operating system's word on a failure.
    pub fn on_spawned(&mut self, outcome: SpawnOutcome, reason: String) -> (step: ServerStep)
        ensures
            step@ == old(self)@.spawned_step(outcome, reason@),
            final(self)@ == old(self)@.after_spawned(outcome),
    {
        let mut phase = Phase::Idle;
        std::mem::swap(&mut phase, &mut self.phase);
        match phase {
            Phase::AwaitingSpawn(request) => {
                match self.supervisor.record_spawn(request, outcome) {
                    Ok(_) => ServerStep::Reply(
                        IpcResponse::Success { payload: ResponsePayload::Ack },
                    ),
                    Err(error) => ServerStep::Reply(
                        IpcResponse::Failure { kind: error_kind_of(error), message: reason },
                    ),
                }
            },
            other => {
                self.phase = other;
                ServerStep::Ignored
            },
        }
    }

    /// Takes the report that the grace period is over, and whether the
    /// child ended in it.
    pub fn on_grace_over(&mut self, ended: bool) -> (step: ServerStep)
        ensures
            step@ == old(self)@.grace_step(ended),
            final(self)@ == old(self)@.after_grace(ended),
    {
        match self.phase {
            Phase::AwaitingGrace { pid } => {
                match self.supervisor.grace_elapsed(pid, ended) {
                    GraceDecision::Finished => {
                        self.phase = Phase::Idle;
                        ServerStep::Reply(IpcResponse::Success { payload: ResponsePayload::Ack })
                    },
                    GraceDecision::Kill { pid } => {
                        self.phase = Phase::AwaitingKill { pid };
                        ServerStep::Kill { pid }
                    },
                }
            },
            _ => ServerStep::Ignored,
        }
    }

    /// Takes the report that the child was killed.
    pub fn on_killed(&mut self) -> (step: ServerStep)
        ensures
            step@ == old(self)@.killed_step(),
            final(self)@ == old(self)@.after_killed(),
    {
        match self.phase {
            Phase::AwaitingKill { pid } => {
                let result = self.supervisor.record_kill(pid);
                self.phase = Phase::Idle;
                match result {
                    Ok(_) => ServerStep::Reply(
                        IpcResponse::Success { payload: ResponsePayload::Ack },
                    ),
                    Err(error) => ServerStep::Reply(
                        IpcResponse::Failure {
                            kind: error_kind_of(error),
                            message: "the proxy core did not end in time and was killed".to_owned(),
                        },
                    ),
                }
            },
            _ => ServerStep::Ignored,
        }
    }

    /// Takes the exit watcher's report that `pid` ended by itself. While a
    /// request is in flight the report is not taken (`false`) and is to be
    /// offered again.
    pub fn on_child_exit(&mut self, pid: u32, report: ExitReport) -> (taken: bool)
        ensures
            taken == (old(self)@.phase == PhaseView::Idle),
            final(self)@ == old(self)@.after_child_exit(pid, report),
    {
        if self.is_idle() {
            self.supervisor.on_exit(pid, report);
            true
        } else {
            false
        }
    }

    /// Keeps one more line of the child's output.
    pub fn on_log_line(&mut self, line: String)
        ensures
            final(self)@ == (ServerModel {
                supervisor: old(self)@.supervisor.after_log(line@),
                ..old(self)@
            }),
    {
        self.supervisor.append_log(line);
    }
}

} // verus!
