//! What holds of the supervisor whatever is asked of it, in whatever order.
//!
//! The supervisor never sees the operating system, so these laws are stated
//! over a model of both: the supervisor's state, and the set of children
//! that are alive. Requests and reports reach the supervisor one at a time;
//! an `Event` is one of them together with what the operating system did.

use crate::ipc::protocol::ProcessStatus;
use crate::process::supervisor::ExitReport;
use crate::process::supervisor::GraceDecision;
use crate::process::supervisor::ProcessError;
use crate::process::supervisor::SpawnOutcome;
use crate::process::supervisor::SpawnRequestView;
use crate::process::supervisor::StopAction;
use crate::process::supervisor::SupervisorModel;
use vstd::prelude::*;

verus! {

/// One request or report, with what the operating system did on it.
pub enum Event {
    /// A start request; `outcome` is what a launch gives if one is made.
    Start { config_path: Seq<char>, extra_args: Seq<Seq<char>>, outcome: SpawnOutcome },
    /// A stop request; `ended_in_grace` is whether the child, if asked to
    /// end, does so before the grace period is over.
    Stop { timeout_ms: u64, ended_in_grace: bool },
    /// The exit watcher's report that `pid` ended by itself.
    Exit { pid: u32, report: ExitReport },
}

/// The supervisor together with the children that are alive.
pub struct World {
    pub supervisor: SupervisorModel,
    pub alive: Set<u32>,
}

/// The supervisor after a whole stop: the grace period, and the kill where
/// the child outlived it.
pub open spec fn stopped(supervisor: SupervisorModel, ended_in_grace: bool) -> SupervisorModel {
    match supervisor.plan_stop(0) {
        StopAction::Nothing => supervisor,
        StopAction::Terminate { pid, grace_ms } => {
            let waited = supervisor.after_grace(pid, ended_in_grace);
            match supervisor.grace_decision(pid, ended_in_grace) {
                GraceDecision::Finished => waited,
                GraceDecision::Kill { pid } => waited.after_kill(pid),
            }
        },
    }
}

/// The answer that a whole stop ends with.
pub open spec fn stop_result(supervisor: SupervisorModel, ended_in_grace: bool) -> Result<
    (),
    ProcessError,
> {
    match supervisor.plan_stop(0) {
        StopAction::Nothing => Ok(()),
        StopAction::Terminate { pid, grace_ms } => match supervisor.grace_decision(
            pid,
            ended_in_grace,
        ) {
            GraceDecision::Finished => Ok(()),
            GraceDecision::Kill { pid } => supervisor.after_grace(pid, ended_in_grace).kill_result(
                pid,
            ),
        },
    }
}

/// The world after one event.
pub open spec fn step(world: World, event: Event) -> World {
    match event {
        Event::Start { config_path, extra_args, outcome } => match world.supervisor.plan_start(
            config_path,
            extra_args,
        ) {
            Ok(request) => World {
                supervisor: world.supervisor.after_spawn(request, outcome),
                alive: match outcome {
                    SpawnOutcome::Spawned { pid, start_time } => world.alive.insert(pid),
                    SpawnOutcome::Failed => world.alive,
                },
            },
            Err(_) => world,
        },
        Event::Stop { timeout_ms, ended_in_grace } => match world.supervisor.plan_stop(
            timeout_ms,
        ) {
            StopAction::Nothing => world,
            StopAction::Terminate { pid, grace_ms } => World {
                supervisor: stopped(world.supervisor, ended_in_grace),
                alive: world.alive.remove(pid),
            },
        },
        Event::Exit { pid, report } => World {
            supervisor: world.supervisor.after_exit(pid, report),
            alive: world.alive.remove(pid),
        },
    }
}

/// The world after a sequence of events, one after another.
pub open spec fn run(world: World, events: Seq<Event>) -> World
    decreases events.len(),
{
    if events.len() == 0 {
        world
    } else {
        run(step(world, events.first()), events.drop_first())
    }
}

/// The supervisor knows of every child that is alive, and of no other.
pub open spec fn consistent(world: World) -> bool {
    world.alive == world.supervisor.live_pids()
}

/// A start request that arrives while a child is running is answered with
/// `AlreadyRunning`, and nothing changes: no second child appears.
pub proof fn lemma_start_while_running(
    world: World,
    config_path: Seq<char>,
    extra_args: Seq<Seq<char>>,
    outcome: SpawnOutcome,
)
    requires
        world.supervisor.running(),
    ensures
        world.supervisor.plan_start(config_path, extra_args) == Err::<
            SpawnRequestView,
            ProcessError,
        >(ProcessError::AlreadyRunning),
        step(world, Event::Start { config_path, extra_args, outcome }) == world,
{
}

/// After a start that launched a child, a second start is answered with
/// `AlreadyRunning`.
pub proof fn lemma_second_start_refused(
    supervisor: SupervisorModel,
    request: SpawnRequestView,
    pid: u32,
    start_time: u64,
    config_path: Seq<char>,
    extra_args: Seq<Seq<char>>,
)
    requires
        !supervisor.running(),
    ensures
        supervisor.after_spawn(request, SpawnOutcome::Spawned { pid, start_time }).plan_start(
            config_path,
            extra_args,
        ) == Err::<SpawnRequestView, ProcessError>(ProcessError::AlreadyRunning),
{
}

/// A child that is ended from outside, by a signal or with a failure code,
/// is reported as crashed from the exit watcher's report on, not as
/// running.
pub proof fn lemma_crash_is_visible(supervisor: SupervisorModel, pid: u32, report: ExitReport)
    requires
        supervisor.supervises(pid),
        report is Signal || report != ExitReport::Code(0),
    ensures
        supervisor.after_exit(pid, report).process.status is Crashed,
        !supervisor.after_exit(pid, report).running(),
        supervisor.after_exit(pid, report).plan_start(Seq::empty(), Seq::empty()) is Ok,
{
}

/// After a whole stop no child is running and the child that was is not
/// alive. The stop is answered with `Ok` unless the child had to be killed,
/// and a second stop finds nothing to do and changes nothing.
pub proof fn lemma_stop_completes(world: World, timeout_ms: u64, ended_in_grace: bool)
    requires
        consistent(world),
    ensures
        ({
            let after = step(world, Event::Stop { timeout_ms, ended_in_grace });
            &&& !after.supervisor.running()
            &&& after.supervisor.process.status == if world.supervisor.running() {
                ProcessStatus::NotRunning
            } else {
                world.supervisor.process.status
            }
            &&& !after.alive.contains(world.supervisor.process.pid)
            &&& after.alive == Set::<u32>::empty()
            &&& (stop_result(world.supervisor, ended_in_grace) is Ok <==> !world.supervisor.running()
                || ended_in_grace)
            &&& after.supervisor.plan_stop(timeout_ms) == StopAction::Nothing
            &&& step(after, Event::Stop { timeout_ms, ended_in_grace }) == after
        }),
{
    let after = step(world, Event::Stop { timeout_ms, ended_in_grace });
    assert(after.alive =~= Set::<u32>::empty());
}

/// One event keeps the world consistent.
pub proof fn lemma_step_consistent(world: World, event: Event)
    requires
        consistent(world),
    ensures
        consistent(step(world, event)),
{
    let after = step(world, event);
    assert(after.alive =~= after.supervisor.live_pids());
}

/// Requests and reports that are taken one at a time, in any order, leave
/// the world as some serial order of them does: consistent. At every point
/// at most one child is alive, and it is the one the supervisor reports as
/// running.
pub proof fn lemma_any_order_is_consistent(world: World, events: Seq<Event>)
    requires
        consistent(world),
    ensures
        consistent(run(world, events)),
        run(world, events).alive.len() <= 1,
        run(world, events).alive.finite(),
    decreases events.len(),
{
    if events.len() == 0 {
        if world.supervisor.running() {
            assert(world.alive =~= set![world.supervisor.process.pid]);
        } else {
            assert(world.alive =~= Set::<u32>::empty());
        }
    } else {
        lemma_step_consistent(world, events.first());
        lemma_any_order_is_consistent(step(world, events.first()), events.drop_first());
    }
}

} // verus!
