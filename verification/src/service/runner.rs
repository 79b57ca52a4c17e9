//! The life of the service process, from the moment the service manager
//! (or a person at a terminal) starts it to its exit.
//!
//! The runner decides; its caller acts. Each thing that happens is handed
//! to `step` as an event, and `step` answers with what is to be done, in
//! order: register the control handler, bind the listener, report a state
//! to the service manager, stop the child, close the listener, exit.

use crate::service::installer::ServiceRunState;
use vstd::prelude::*;

verus! {

/// The exit code of an orderly end.
pub const EXIT_SUCCESS: i32 = 0;

/// The exit code of a failure.
pub const EXIT_FAILURE: i32 = 1;

/// How the process was started.
#[derive(Clone, Copy, Debug, PartialEq, Eq, Structural)]
pub enum RunMode {
    /// By the service manager, which wants a control handler registered.
    Service,
    /// By hand, for a local run: there is no control handler.
    Foreground,
}

/// Where the runner is in its life.
#[derive(Clone, Copy, Debug, PartialEq, Eq, Structural)]
pub enum RunnerState {
    /// Not started yet.
    Created,
    /// The control handler is being registered.
    Registering,
    /// The listener is being bound.
    Binding,
    /// The listener is bound and requests are served.
    Running,
    /// A stop was asked for and the child is being stopped.
    Stopping,
    /// The listener is closed and the last connections finish.
    Draining,
    /// The service ended in order.
    Stopped,
    /// The service could not start.
    Failed,
}

/// What happened.
#[derive(Clone, Copy, Debug, PartialEq, Eq, Structural)]
pub enum RunnerEvent {
    /// The entry point was invoked.
    Launched,
    /// The control handler is registered.
    ControlRegistered,
    /// The control handler could not be registered.
    ControlRejected,
    /// The listener is bound.
    ListenerBound,
    /// The listener could not be bound.
    BindFailed,
    /// The service manager, or a person, asked the service to stop.
    StopRequested,
    /// The supervisor has stopped the child.
    ChildStopped,
    /// A connection that was admitted is over.
    ConnectionClosed,
    /// The time granted to the last connections is over.
    DrainDeadline,
}

/// What is to be done.
#[derive(Clone, Copy, Debug, PartialEq, Eq, Structural)]
pub enum RunnerAction {
    /// Register the control handler, on the thread that the operating
    /// system prescribes.
    RegisterControlHandler,
    /// Bind the listener.
    BindListener,
    /// Report this state to the service manager.
    Report(ServiceRunState),
    /// Report to the service manager that the service failed to start.
    ReportFailure,
    /// Have the supervisor stop the child.
    StopChild,
    /// Close the listener.
    CloseListener,
    /// End the process with this exit code.
    Exit(i32),
}

/// The state of a runner as plain mathematical data.
pub struct RunnerModel {
    pub mode: RunMode,
    pub state: RunnerState,
    /// Whether a stop was asked for before the service was running.
    pub stop_requested: bool,
    /// The number of connections that were admitted and are not over.
    pub connections: nat,
}

/// The state that the runner reported last to the service manager, if it
/// has reported any.
pub open spec fn last_report(state: RunnerState) -> Option<ServiceRunState> {
    match state {
        RunnerState::Created => None,
        RunnerState::Registering => None,
        RunnerState::Binding => Some(ServiceRunState::Starting),
        RunnerState::Running => Some(ServiceRunState::Running),
        RunnerState::Stopping => Some(ServiceRunState::StopPending),
        RunnerState::Draining => Some(ServiceRunState::StopPending),
        RunnerState::Stopped => Some(ServiceRunState::Stopped),
        RunnerState::Failed => None,
    }
}

/// Whether `next` may be reported after `previous`: `Starting` comes first,
/// then `Running`, then `StopPending`, then `Stopped`.
pub open spec fn may_follow(previous: Option<ServiceRunState>, next: ServiceRunState) -> bool {
    match next {
        ServiceRunState::Starting => previous is None,
        ServiceRunState::Running => previous == Some(ServiceRunState::Starting),
        ServiceRunState::StopPending => previous == Some(ServiceRunState::Running),
        ServiceRunState::Stopped => previous == Some(ServiceRunState::StopPending),
        ServiceRunState::Unknown => false,
    }
}

/// Whether the reports among `actions` may be made in this order after
/// `previous` was reported.
pub open spec fn reports_in_order(previous: Option<ServiceRunState>, actions: Seq<RunnerAction>) -> bool
    decreases actions.len(),
{
    if actions.len() == 0 {
        true
    } else {
        match actions.first() {
            RunnerAction::Report(state) => may_follow(previous, state) && reports_in_order(
                Some(state),
                actions.drop_first(),
            ),
            _ => reports_in_order(previous, actions.drop_first()),
        }
    }
}

/// The state that was reported last once `actions` are done.
pub open spec fn report_after(previous: Option<ServiceRunState>, actions: Seq<RunnerAction>) -> Option<
    ServiceRunState,
>
    decreases actions.len(),
{
    if actions.len() == 0 {
        previous
    } else {
        match actions.first() {
            RunnerAction::Report(state) => report_after(Some(state), actions.drop_first()),
            _ => report_after(previous, actions.drop_first()),
        }
    }
}

impl RunnerModel {
    /// What is to be done on an event. An event that does not fit the state
    /// asks for nothing.
    pub open spec fn actions(self, event: RunnerEvent) -> Seq<RunnerAction> {
        match (self.state, event) {
            (RunnerState::Created, RunnerEvent::Launched) => match self.mode {
                RunMode::Service => seq![RunnerAction::RegisterControlHandler],
                RunMode::Foreground => seq![
                    RunnerAction::Report(ServiceRunState::Starting),
                    RunnerAction::BindListener,
                ],
            },
            (RunnerState::Registering, RunnerEvent::ControlRegistered) => seq![
                RunnerAction::Report(ServiceRunState::Starting),
                RunnerAction::BindListener,
            ],
            (RunnerState::Registering, RunnerEvent::ControlRejected) => seq![
                RunnerAction::ReportFailure,
                RunnerAction::Exit(EXIT_FAILURE),
            ],
            (RunnerState::Binding, RunnerEvent::ListenerBound) => if self.stop_requested {
                seq![
                    RunnerAction::Report(ServiceRunState::Running),
                    RunnerAction::Report(ServiceRunState::StopPending),
                    RunnerAction::StopChild,
                ]
            } else {
                seq![RunnerAction::Report(ServiceRunState::Running)]
            },
            (RunnerState::Binding, RunnerEvent::BindFailed) => seq![
                RunnerAction::ReportFailure,
                RunnerAction::Exit(EXIT_FAILURE),
            ],
            (RunnerState::Running, RunnerEvent::StopRequested) => seq![
                RunnerAction::Report(ServiceRunState::StopPending),
                RunnerAction::StopChild,
            ],
            (RunnerState::Stopping, RunnerEvent::ChildStopped) => if self.connections == 0 {
                seq![
                    RunnerAction::CloseListener,
                    RunnerAction::Report(ServiceRunState::Stopped),
                    RunnerAction::Exit(EXIT_SUCCESS),
                ]
            } else {
                seq![RunnerAction::CloseListener]
            },
            (RunnerState::Draining, RunnerEvent::ConnectionClosed) => if self.connections <= 1 {
                seq![
                    RunnerAction::Report(ServiceRunState::Stopped),
                    RunnerAction::Exit(EXIT_SUCCESS),
                ]
            } else {
                Seq::empty()
            },
            (RunnerState::Draining, RunnerEvent::DrainDeadline) => seq![
                RunnerAction::Report(ServiceRunState::Stopped),
                RunnerAction::Exit(EXIT_SUCCESS),
            ],
            _ => Seq::empty(),
        }
    }

    /// The number of open connections after one of them is over.
    pub open spec fn one_fewer(self) -> nat {
        if self.connections > 0 {
            (self.connections - 1) as nat
        } else {
            0
        }
    }

    /// The runner after an event.
    pub open spec fn next(self, event: RunnerEvent) -> RunnerModel {
        match (self.state, event) {
            (RunnerState::Created, RunnerEvent::Launched) => match self.mode {
                RunMode::Service => RunnerModel { state: RunnerState::Registering, ..self },
                RunMode::Foreground => RunnerModel { state: RunnerState::Binding, ..self },
            },
            (RunnerState::Registering, RunnerEvent::ControlRegistered) => RunnerModel {
                state: RunnerState::Binding,
                ..self
            },
            (RunnerState::Registering, RunnerEvent::ControlRejected) => RunnerModel {
                state: RunnerState::Failed,
                ..self
            },
            (RunnerState::Binding, RunnerEvent::ListenerBound) => if self.stop_requested {
                RunnerModel { state: RunnerState::Stopping, stop_requested: false, ..self }
            } else {
                RunnerModel { state: RunnerState::Running, ..self }
            },
            (RunnerState::Binding, RunnerEvent::BindFailed) => RunnerModel {
                state: RunnerState::Failed,
                ..self
            },
            (RunnerState::Created, RunnerEvent::StopRequested) => RunnerModel {
                stop_requested: true,
                ..self
            },
            (RunnerState::Registering, RunnerEvent::StopRequested) => RunnerModel {
                stop_requested: true,
                ..self
            },
            (RunnerState::Binding, RunnerEvent::StopRequested) => RunnerModel {
                stop_requested: true,
                ..self
            },
            (RunnerState::Running, RunnerEvent::StopRequested) => RunnerModel {
                state: RunnerState::Stopping,
                ..self
            },
            (RunnerState::Stopping, RunnerEvent::ChildStopped) => if self.connections == 0 {
                RunnerModel { state: RunnerState::Stopped, ..self }
            } else {
                RunnerModel { state: RunnerState::Draining, ..self }
            },
            (RunnerState::Draining, RunnerEvent::ConnectionClosed) => if self.connections <= 1 {
                RunnerModel { state: RunnerState::Stopped, connections: 0, ..self }
            } else {
                RunnerModel { connections: self.one_fewer(), ..self }
            },
            (RunnerState::Draining, RunnerEvent::DrainDeadline) => RunnerModel {
                state: RunnerState::Stopped,
                connections: 0,
                ..self
            },
            (_, RunnerEvent::ConnectionClosed) => RunnerModel {
                connections: self.one_fewer(),
                ..self
            },
            _ => self,
        }
    }

    /// Whether a new connection is admitted: only while the service is
    /// running.
    pub open spec fn admits(self) -> bool {
        self.state == RunnerState::Running && self.connections < usize::MAX
    }
}

/// Whatever happens, the runner's reports to the service manager come in
/// the one order `Starting`, `Running`, `StopPending`, `Stopped`, and
/// `last_report` of the new state is the last of them.
pub proof fn lemma_reports_in_order(runner: RunnerModel, event: RunnerEvent)
    ensures
        reports_in_order(last_report(runner.state), runner.actions(event)),
        runner.next(event).state != RunnerState::Failed ==> last_report(runner.next(event).state)
            == report_after(last_report(runner.state), runner.actions(event)),
{
    let actions = runner.actions(event);
    reveal_with_fuel(reports_in_order, 5);
    reveal_with_fuel(report_after, 5);
    if actions.len() >= 1 {
        let rest = actions.drop_first();
        assert(rest.len() == actions.len() - 1);
        if rest.len() >= 1 {
            assert(rest.first() == actions[1]);
            let last = rest.drop_first();
            assert(last.len() == actions.len() - 2);
            if last.len() >= 1 {
                assert(last.first() == actions[2]);
                assert(last.drop_first().len() == 0);
            }
        }
    }
}

/// `Running` is reported only on the event that the listener is bound, and
/// a start that fails is reported as a failure and ends the process with a
/// code that is not zero.
pub proof fn lemma_running_means_bound(runner: RunnerModel, event: RunnerEvent)
    ensures
        runner.actions(event).contains(RunnerAction::Report(ServiceRunState::Running)) ==> event
            == RunnerEvent::ListenerBound,
        runner.next(event).state == RunnerState::Failed && runner.state != RunnerState::Failed
            ==> runner.actions(event) == seq![
            RunnerAction::ReportFailure,
            RunnerAction::Exit(EXIT_FAILURE),
        ] && (event == RunnerEvent::ControlRejected || event == RunnerEvent::BindFailed),
{
    let actions = runner.actions(event);
    if actions.contains(RunnerAction::Report(ServiceRunState::Running)) {
        let i = choose|i: int|
            0 <= i < actions.len() && actions[i] == RunnerAction::Report(ServiceRunState::Running);
        assert(actions[i] == RunnerAction::Report(ServiceRunState::Running));
    }
}

/// The runner.
pub struct ServiceRunner {
    mode: RunMode,
    state: RunnerState,
    stop_requested: bool,
    connections: usize,
}

impl View for ServiceRunner {
    type V = RunnerModel;

    closed spec fn view(&self) -> RunnerModel {
        RunnerModel {
            mode: self.mode,
            state: self.state,
            stop_requested: self.stop_requested,
            connections: self.connections as nat,
        }
    }
}

impl ServiceRunner {
    /// A runner that was not started yet.
    pub fn new(mode: RunMode) -> (runner: ServiceRunner)
        ensures
            runner@ == (RunnerModel {
                mode,
                state: RunnerState::Created,
                stop_requested: false,
                connections: 0,
            }),
    {
        ServiceRunner { mode, state: RunnerState::Created, stop_requested: false, connections: 0 }
    }

    /// Where the runner is in its life.
    pub fn state(&self) -> (state: RunnerState)
        ensures
            state == self@.state,
    {
        self.state
    }

    /// The number of connections that were admitted and are not over.
    pub fn connections(&self) -> (count: usize)
        ensures
            count == self@.connections,
    {
        self.connections
    }

    /// Decides on a new connection. It is admitted, and counted, only while
    /// the service is running.
    pub fn accept(&mut self) -> (admitted: bool)
        ensures
            admitted == old(self)@.admits(),
            final(self)@ == (RunnerModel {
                connections: if admitted {
                    old(self)@.connections + 1
                } else {
                    old(self)@.connections
                },
                ..old(self)@
            }),
    {
        match self.state {
            RunnerState::Running => {
                if self.connections < usize::MAX {
                    self.connections = self.connections + 1;
                    true
                } else {
                    false
                }
            },
            _ => false,
        }
    }

    /// Takes an event and says what is to be done, in order.
    pub fn step(&mut self, event: RunnerEvent) -> (actions: Vec<RunnerAction>)
        ensures
            actions@ == old(self)@.actions(event),
            final(self)@ == old(self)@.next(event),
    {
        let mut actions: Vec<RunnerAction> = Vec::new();
        let fewer: usize = if self.connections > 0 {
            self.connections - 1
        } else {
            0
        };
        match (self.state, event) {
            (RunnerState::Created, RunnerEvent::Launched) => match self.mode {
                RunMode::Service => {
                    actions.push(RunnerAction::RegisterControlHandler);
                    self.state = RunnerState::Registering;
                },
                RunMode::Foreground => {
                    actions.push(RunnerAction::Report(ServiceRunState::Starting));
                    actions.push(RunnerAction::BindListener);
                    self.state = RunnerState::Binding;
                },
            },
            (RunnerState::Registering, RunnerEvent::ControlRegistered) => {
                actions.push(RunnerAction::Report(ServiceRunState::Starting));
                actions.push(RunnerAction::BindListener);
                self.state = RunnerState::Binding;
            },
            (RunnerState::Registering, RunnerEvent::ControlRejected) => {
                actions.push(RunnerAction::ReportFailure);
                actions.push(RunnerAction::Exit(EXIT_FAILURE));
                self.state = RunnerState::Failed;
            },
            (RunnerState::Binding, RunnerEvent::ListenerBound) => {
                actions.push(RunnerAction::Report(ServiceRunState::Running));
                if self.stop_requested {
                    actions.push(RunnerAction::Report(ServiceRunState::StopPending));
                    actions.push(RunnerAction::StopChild);
                    self.state = RunnerState::Stopping;
                    self.stop_requested = false;
                } else {
                    self.state = RunnerState::Running;
                }
            },
            (RunnerState::Binding, RunnerEvent::BindFailed) => {
                actions.push(RunnerAction::ReportFailure);
                actions.push(RunnerAction::Exit(EXIT_FAILURE));
                self.state = RunnerState::Failed;
            },
            (RunnerState::Created, RunnerEvent::StopRequested) => {
                self.stop_requested = true;
            },
            (RunnerState::Registering, RunnerEvent::StopRequested) => {
                self.stop_requested = true;
            },
            (RunnerState::Binding, RunnerEvent::StopRequested) => {
                self.stop_requested = true;
            },
            (RunnerState::Running, RunnerEvent::StopRequested) => {
                actions.push(RunnerAction::Report(ServiceRunState::StopPending));
                actions.push(RunnerAction::StopChild);
                self.state = RunnerState::Stopping;
            },
            (RunnerState::Stopping, RunnerEvent::ChildStopped) => {
                actions.push(RunnerAction::CloseListener);
                if self.connections == 0 {
                    actions.push(RunnerAction::Report(ServiceRunState::Stopped));
                    actions.push(RunnerAction::Exit(EXIT_SUCCESS));
                    self.state = RunnerState::Stopped;
                } else {
                    self.state = RunnerState::Draining;
                }
            },
            (RunnerState::Draining, RunnerEvent::ConnectionClosed) => {
                if self.connections <= 1 {
                    actions.push(RunnerAction::Report(ServiceRunState::Stopped));
                    actions.push(RunnerAction::Exit(EXIT_SUCCESS));
                    self.state = RunnerState::Stopped;
                    self.connections = 0;
                } else {
                    self.connections = fewer;
                }
            },
            (RunnerState::Draining, RunnerEvent::DrainDeadline) => {
                actions.push(RunnerAction::Report(ServiceRunState::Stopped));
                actions.push(RunnerAction::Exit(EXIT_SUCCESS));
                self.state = RunnerState::Stopped;
                self.connections = 0;
            },
            (_, RunnerEvent::ConnectionClosed) => {
                self.connections = fewer;
            },
            _ => {},
        }
        assert(actions@ =~= old(self)@.actions(event));
        actions
    }
}

} // verus!
