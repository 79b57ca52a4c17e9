//! What holds of the server's single lane.
//!
//! A request that needs the operating system is handled in several calls.
//! These laws say that nothing can come between those calls, and that the
//! calls of one request together do to the supervisor what one event of
//! `process::laws` does. So whatever the order in which requests arrive,
//! the supervisor goes through a serial order of them.

use crate::ipc::client::received;
use crate::ipc::client::request_bytes;
use crate::ipc::client::ClientStepView;
use crate::ipc::codec::command_bytes;
use crate::ipc::codec::command_fits;
use crate::ipc::codec::lemma_command_round_trip;
use crate::ipc::codec::lemma_response_round_trip;
use crate::ipc::codec::response_bytes;
use crate::ipc::codec::response_fits;
use crate::ipc::error::IpcError;
use crate::ipc::frame::lemma_frame_round_trip;
use crate::ipc::protocol::IpcCommandView;
use crate::ipc::protocol::IpcResponseView;
use crate::ipc::server::reply_bytes;
use crate::ipc::server::IntakeView;
use crate::ipc::server::ack;
use crate::ipc::server::PhaseView;
use crate::ipc::server::ServerModel;
use crate::ipc::server::ServerStepView;
use crate::process::laws::step;
use crate::process::laws::Event;
use crate::process::laws::World;
use crate::process::supervisor::ExitReport;
use crate::process::supervisor::SpawnOutcome;
use vstd::prelude::*;

verus! {

/// While a request is in flight, another request is answered with `Busy`
/// and an exit report is not taken; neither changes anything.
pub proof fn lemma_lane_is_exclusive(
    server: ServerModel,
    command: IpcCommandView,
    pid: u32,
    report: ExitReport,
)
    requires
        server.phase != PhaseView::Idle,
    ensures
        server.command_step(command) == ServerStepView::Busy,
        server.after_command(command) == server,
        server.after_child_exit(pid, report) == server,
{
}

/// A report that fits nothing the server waits for changes nothing.
pub proof fn lemma_stray_reports_are_ignored(
    server: ServerModel,
    outcome: SpawnOutcome,
    reason: Seq<char>,
    ended: bool,
)
    requires
        server.phase == PhaseView::Idle,
    ensures
        server.spawned_step(outcome, reason) == ServerStepView::Ignored,
        server.after_spawned(outcome) == server,
        server.grace_step(ended) == ServerStepView::Ignored,
        server.after_grace(ended) == server,
        server.killed_step() == ServerStepView::Ignored,
        server.after_killed() == server,
{
}

/// The server after a whole start request: the request, and the outcome of
/// the launch where one was asked for.
pub open spec fn after_whole_start(
    server: ServerModel,
    config_path: Seq<char>,
    extra_args: Seq<Seq<char>>,
    outcome: SpawnOutcome,
) -> ServerModel {
    let command = IpcCommandView::Start { config_path, extra_args };
    match server.command_step(command) {
        ServerStepView::Launch(_) => server.after_command(command).after_spawned(outcome),
        _ => server.after_command(command),
    }
}

/// The server after a whole stop request: the request, the grace period,
/// and the kill where one was asked for.
pub open spec fn after_whole_stop(server: ServerModel, ended_in_grace: bool) -> ServerModel {
    let asked = server.after_command(IpcCommandView::Stop);
    match server.command_step(IpcCommandView::Stop) {
        ServerStepView::Terminate { pid, grace_ms } => {
            let waited = asked.after_grace(ended_in_grace);
            match asked.grace_step(ended_in_grace) {
                ServerStepView::Kill { pid } => waited.after_killed(),
                _ => waited,
            }
        },
        _ => asked,
    }
}

/// A whole start request leaves the lane free and does to the supervisor
/// what one `Start` event does.
pub proof fn lemma_start_is_one_event(
    server: ServerModel,
    alive: Set<u32>,
    config_path: Seq<char>,
    extra_args: Seq<Seq<char>>,
    outcome: SpawnOutcome,
)
    requires
        server.phase == PhaseView::Idle,
    ensures
        after_whole_start(server, config_path, extra_args, outcome).phase == PhaseView::Idle,
        after_whole_start(server, config_path, extra_args, outcome).supervisor == step(
            World { supervisor: server.supervisor, alive },
            Event::Start { config_path, extra_args, outcome },
        ).supervisor,
{
}

/// A whole stop request leaves the lane free and does to the supervisor
/// what one `Stop` event does.
pub proof fn lemma_stop_is_one_event(server: ServerModel, alive: Set<u32>, ended_in_grace: bool)
    requires
        server.phase == PhaseView::Idle,
    ensures
        after_whole_stop(server, ended_in_grace).phase == PhaseView::Idle,
        after_whole_stop(server, ended_in_grace).supervisor == step(
            World { supervisor: server.supervisor, alive },
            Event::Stop { timeout_ms: server.stop_timeout_ms, ended_in_grace },
        ).supervisor,
{
}

/// An exit report that is taken does to the supervisor what one `Exit`
/// event does.
pub proof fn lemma_exit_is_one_event(
    server: ServerModel,
    alive: Set<u32>,
    pid: u32,
    report: ExitReport,
)
    requires
        server.phase == PhaseView::Idle,
    ensures
        server.after_child_exit(pid, report).phase == PhaseView::Idle,
        server.after_child_exit(pid, report).supervisor == step(
            World { supervisor: server.supervisor, alive },
            Event::Exit { pid, report },
        ).supervisor,
{
}

/// A status request and a request for output lines change nothing.
pub proof fn lemma_queries_change_nothing(server: ServerModel, max_lines: u32)
    ensures
        server.after_command(IpcCommandView::Status) == server,
        server.after_command(IpcCommandView::GetLogs { max_lines }) == server,
{
}

/// A stop request that finds no child running is acknowledged at once.
pub proof fn lemma_stop_without_child(server: ServerModel)
    requires
        server.phase == PhaseView::Idle,
        !server.supervisor.running(),
    ensures
        server.command_step(IpcCommandView::Stop) == ack(),
        server.after_command(IpcCommandView::Stop) == server,
{
}

/// What a caller sends for a command, the server reads as that command.
pub proof fn lemma_request_is_understood(server: ServerModel, command: IpcCommandView)
    requires
        command_fits(command),
        request_bytes(command) is Ok,
    ensures
        server.intake(request_bytes(command).unwrap()) == IntakeView::Step(
            server.command_step(command),
        ),
        server.after_intake(request_bytes(command).unwrap()) == server.after_command(command),
{
    let payload = command_bytes(command);
    lemma_frame_round_trip(payload, Seq::empty());
    assert(request_bytes(command).unwrap() + Seq::<u8>::empty() =~= request_bytes(
        command,
    ).unwrap());
    lemma_command_round_trip(command);
}

/// What the server sends for an answer, the caller reads as that answer.
pub proof fn lemma_answer_is_understood(response: IpcResponseView)
    requires
        response_fits(response),
        reply_bytes(response) is Ok,
    ensures
        received(reply_bytes(response).unwrap()) == ClientStepView::Done(
            Ok::<IpcResponseView, IpcError>(response),
        ),
{
    let payload = response_bytes(response);
    lemma_frame_round_trip(payload, Seq::empty());
    assert(reply_bytes(response).unwrap() + Seq::<u8>::empty() =~= reply_bytes(response).unwrap());
    lemma_response_round_trip(response);
}

} // verus!
