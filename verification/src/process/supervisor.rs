//! The supervisor of the proxy core.
//!
//! It owns what is known of the one child process and decides what may be
//! done to it. It does not touch the operating system: a caller asks it
//! what to do, does it, and reports what happened. Each decision and each
//! report is one call, so a caller that serialises its calls gets a state
//! machine in which no two changes race.

use crate::ipc::protocol::ManagedProcess;
use crate::ipc::protocol::ManagedProcessView;
use crate::ipc::protocol::ProcessStatus;
use crate::ipc::wire::texts_of;
use crate::process::log_buffer::newest;
use crate::process::log_buffer::pushed;
use crate::process::log_buffer::LogBuffer;
use vstd::prelude::*;

verus! {

/// Why the supervisor turned a request down.
#[derive(Clone, Copy, Debug, PartialEq, Eq, Structural)]
pub enum ProcessError {
    /// A start was asked for while the proxy core was running.
    AlreadyRunning,
    /// The operating system could not launch the proxy core.
    SpawnFailed,
    /// The proxy core outlived the grace period and was killed.
    StopTimedOut,
}

/// How the supervised process ended, as the operating system reports it.
#[derive(Clone, Copy, Debug, PartialEq, Eq, Structural)]
pub enum ExitReport {
    /// It returned this exit code.
    Code(i32),
    /// It was ended by this signal.
    Signal(i32),
}

/// The command line that the supervisor wants launched.
#[derive(Clone, Debug, PartialEq, Eq)]
pub struct SpawnRequest {
    pub executable_path: String,
    pub arguments: Vec<String>,
}

/// A `SpawnRequest` as plain mathematical data.
pub struct SpawnRequestView {
    pub executable_path: Seq<char>,
    pub arguments: Seq<Seq<char>>,
}

impl View for SpawnRequest {
    type V = SpawnRequestView;

    open spec fn view(&self) -> SpawnRequestView {
        SpawnRequestView {
            executable_path: self.executable_path@,
            arguments: texts_of(self.arguments@),
        }
    }
}

/// What became of a launch.
#[derive(Clone, Copy, Debug, PartialEq, Eq, Structural)]
pub enum SpawnOutcome {
    /// The child runs under this pid since this time (seconds since the
    /// epoch).
    Spawned { pid: u32, start_time: u64 },
    /// The operating system refused.
    Failed,
}

/// What a caller has to do to stop the proxy core.
#[derive(Clone, Copy, Debug, PartialEq, Eq, Structural)]
pub enum StopAction {
    /// Nothing: no process is running.
    Nothing,
    /// Ask this process to end, and wait for it this many milliseconds.
    Terminate { pid: u32, grace_ms: u64 },
}

/// What a caller has to do once the grace period is over.
#[derive(Clone, Copy, Debug, PartialEq, Eq, Structural)]
pub enum GraceDecision {
    /// Nothing more: the stop is complete.
    Finished,
    /// Kill this process, then report the kill.
    Kill { pid: u32 },
}

/// The state of a supervisor as plain mathematical data.
pub struct SupervisorModel {
    /// The proxy core's executable.
    pub core_path: Seq<char>,
    /// What is known of the child process.
    pub process: ManagedProcessView,
    /// The captured output lines, oldest first.
    pub logs: Seq<Seq<char>>,
    /// The number of lines that are kept at most.
    pub log_limit: nat,
}

/// The status that a process has after it ended by itself: a clean end is
/// `Exited`, a failure code or a signal is `Crashed`.
pub open spec fn exit_status(report: ExitReport) -> ProcessStatus {
    match report {
        ExitReport::Code(code) => if code == 0 {
            ProcessStatus::Exited(code)
        } else {
            ProcessStatus::Crashed(code)
        },
        ExitReport::Signal(signal) => ProcessStatus::Crashed(signal),
    }
}

/// The arguments that the proxy core is launched with: `-f`, the
/// configuration file, then the caller's own arguments.
pub open spec fn spawn_arguments(config_path: Seq<char>, extra_args: Seq<Seq<char>>) -> Seq<
    Seq<char>,
> {
    seq!["-f"@, config_path] + extra_args
}

impl SupervisorModel {
    /// Whether a child process is running.
    pub open spec fn running(self) -> bool {
        self.process.status == ProcessStatus::Running
    }

    /// The pids of the children that the supervisor holds to be alive: the
    /// recorded one while it is running, none otherwise.
    pub open spec fn live_pids(self) -> Set<u32> {
        if self.running() {
            set![self.process.pid]
        } else {
            Set::empty()
        }
    }

    /// Whether `pid` is the running child.
    pub open spec fn supervises(self, pid: u32) -> bool {
        self.running() && self.process.pid == pid
    }

    /// The answer to a start request: a launch, unless a child is running.
    pub open spec fn plan_start(self, config_path: Seq<char>, extra_args: Seq<Seq<char>>) -> Result<
        SpawnRequestView,
        ProcessError,
    > {
        if self.running() {
            Err(ProcessError::AlreadyRunning)
        } else {
            Ok(
                SpawnRequestView {
                    executable_path: self.core_path,
                    arguments: spawn_arguments(config_path, extra_args),
                },
            )
        }
    }

    /// The answer to the report of a launch.
    pub open spec fn spawn_result(self, outcome: SpawnOutcome) -> Result<(), ProcessError> {
        if self.running() {
            Err(ProcessError::AlreadyRunning)
        } else {
            match outcome {
                SpawnOutcome::Spawned { pid, start_time } => Ok(()),
                SpawnOutcome::Failed => Err(ProcessError::SpawnFailed),
            }
        }
    }

    /// The state after the report of a launch: a successful one is
    /// recorded as the running child, unless one is running already.
    pub open spec fn after_spawn(self, request: SpawnRequestView, outcome: SpawnOutcome) -> Self {
        if self.running() {
            self
        } else {
            match outcome {
                SpawnOutcome::Spawned { pid, start_time } => SupervisorModel {
                    process: ManagedProcessView {
                        pid,
                        executable_path: request.executable_path,
                        arguments: request.arguments,
                        start_time,
                        status: ProcessStatus::Running,
                    },
                    ..self
                },
                SpawnOutcome::Failed => self,
            }
        }
    }

    /// The answer to a stop request.
    pub open spec fn plan_stop(self, timeout_ms: u64) -> StopAction {
        if self.running() {
            StopAction::Terminate { pid: self.process.pid, grace_ms: timeout_ms }
        } else {
            StopAction::Nothing
        }
    }

    /// The state with the child's status replaced.
    pub open spec fn with_status(self, status: ProcessStatus) -> Self {
        SupervisorModel { process: ManagedProcessView { status, ..self.process }, ..self }
    }

    /// The decision once the grace period of `pid` is over.
    pub open spec fn grace_decision(self, pid: u32, ended: bool) -> GraceDecision {
        if self.supervises(pid) && !ended {
            GraceDecision::Kill { pid }
        } else {
            GraceDecision::Finished
        }
    }

    /// The state once the grace period of `pid` is over: stopped, where the
    /// child ended in time.
    pub open spec fn after_grace(self, pid: u32, ended: bool) -> Self {
        if self.supervises(pid) && ended {
            self.with_status(ProcessStatus::NotRunning)
        } else {
            self
        }
    }

    /// The answer to the report that `pid` was killed.
    pub open spec fn kill_result(self, pid: u32) -> Result<(), ProcessError> {
        if self.supervises(pid) {
            Err(ProcessError::StopTimedOut)
        } else {
            Ok(())
        }
    }

    /// The state after `pid` was killed.
    pub open spec fn after_kill(self, pid: u32) -> Self {
        if self.supervises(pid) {
            self.with_status(ProcessStatus::NotRunning)
        } else {
            self
        }
    }

    /// The state after the exit watcher saw `pid` end by itself.
    pub open spec fn after_exit(self, pid: u32, report: ExitReport) -> Self {
        if self.supervises(pid) {
            self.with_status(exit_status(report))
        } else {
            self
        }
    }

    /// The state after one more output line was captured.
    pub open spec fn after_log(self, line: Seq<char>) -> Self {
        SupervisorModel { logs: pushed(self.logs, line, self.log_limit), ..self }
    }
}

/// The supervisor of the proxy core.
pub struct ProcessSupervisor {
    core_path: String,
    process: ManagedProcess,
    logs: LogBuffer,
}

impl View for ProcessSupervisor {
    type V = SupervisorModel;

    closed spec fn view(&self) -> SupervisorModel {
        SupervisorModel {
            core_path: self.core_path@,
            process: self.process@,
            logs: self.logs@,
            log_limit: self.logs.limit(),
        }
    }
}

/// A copy of a list of strings.
pub fn clone_texts(texts: &Vec<String>) -> (copy: Vec<String>)
    ensures
        copy@ == texts@,
{
    let mut copy: Vec<String> = Vec::new();
    let mut i: usize = 0;
    while i < texts.len()
        invariant
            i <= texts@.len(),
            copy@ == texts@.subrange(0, i as int),
        decreases texts@.len() - i,
    {
        copy.push(texts[i].clone());
        i += 1;
        assert(copy@ =~= texts@.subrange(0, i as int));
    }
    assert(texts@.subrange(0, i as int) =~= texts@);
    copy
}

impl ProcessSupervisor {
    /// A supervisor of the executable `core_path` that has started nothing
    /// yet and keeps at most `log_capacity` output lines.
    pub fn new(core_path: String, log_capacity: usize) -> (supervisor: ProcessSupervisor)
        ensures
            supervisor@ == (SupervisorModel {
                core_path: core_path@,
                process: ManagedProcessView {
                    pid: 0,
                    executable_path: core_path@,
                    arguments: Seq::empty(),
                    start_time: 0,
                    status: ProcessStatus::NotRunning,
                },
                logs: Seq::empty(),
                log_limit: log_capacity as nat,
            }),
    {
        let process = ManagedProcess {
            pid: 0,
            executable_path: core_path.clone(),
            arguments: Vec::new(),
            start_time: 0,
            status: ProcessStatus::NotRunning,
        };
        assert(texts_of(process.arguments@) =~= Seq::<Seq<char>>::empty());
        ProcessSupervisor { core_path, process, logs: LogBuffer::new(log_capacity) }
    }

    /// Whether a child process is running.
    pub fn is_running(&self) -> (running: bool)
        ensures
            running == self@.running(),
    {
        match self.process.status {
            ProcessStatus::Running => true,
            _ => false,
        }
    }

    /// Decides on a start request. While a child is running the answer is
    /// `AlreadyRunning` and nothing is to be launched; otherwise it is the
    /// command line to launch, whose outcome goes to `record_spawn`.
    pub fn start(&self, config_path: String, extra_args: Vec<String>) -> (result: Result<
        SpawnRequest,
        ProcessError,
    >)
        ensures
            result matches Ok(request) ==> self@.plan_start(config_path@, texts_of(extra_args@))
                == Ok::<SpawnRequestView, ProcessError>(request@),
            result matches Err(error) ==> self@.plan_start(config_path@, texts_of(extra_args@))
                == Err::<SpawnRequestView, ProcessError>(error),
    {
        if self.is_running() {
            return Err(ProcessError::AlreadyRunning);
        }
        let mut arguments: Vec<String> = Vec::new();
        arguments.push("-f".to_owned());
        arguments.push(config_path);
        let mut i: usize = 0;
        while i < extra_args.len()
            invariant
                i <= extra_args@.len(),
                texts_of(arguments@) == seq!["-f"@, config_path@] + texts_of(extra_args@).take(
                    i as int,
                ),
            decreases extra_args@.len() - i,
        {
            let ghost before = texts_of(arguments@);
            arguments.push(extra_args[i].clone());
            assert(texts_of(arguments@) =~= before.push(extra_args@[i as int]@));
            i += 1;
            assert(texts_of(arguments@) =~= seq!["-f"@, config_path@] + texts_of(
                extra_args@,
            ).take(i as int));
        }
        assert(texts_of(extra_args@).take(i as int) =~= texts_of(extra_args@));
        Ok(SpawnRequest { executable_path: self.core_path.clone(), arguments })
    }

    /// Records what became of a launch that `start` asked for. A child that
    /// was launched is from now on the running one. While another child is
    /// running nothing is recorded and the answer is `AlreadyRunning`.
    pub fn record_spawn(&mut self, request: SpawnRequest, outcome: SpawnOutcome) -> (result: Result<
        (),
        ProcessError,
    >)
        ensures
            result == old(self)@.spawn_result(outcome),
            final(self)@ == old(self)@.after_spawn(request@, outcome),
    {
        if self.is_running() {
            return Err(ProcessError::AlreadyRunning);
        }
        match outcome {
            SpawnOutcome::Spawned { pid, start_time } => {
                self.process =
                ManagedProcess {
                    pid,
                    executable_path: request.executable_path,
                    arguments: request.arguments,
                    start_time,
                    status: ProcessStatus::Running,
                };
                Ok(())
            },
            SpawnOutcome::Failed => Err(ProcessError::SpawnFailed),
        }
    }

    /// Decides on a stop request: nothing is to be done unless a child is
    /// running; then it is to be asked to end and given `timeout_ms`.
    pub fn stop(&self, timeout_ms: u64) -> (action: StopAction)
        ensures
            action == self@.plan_stop(timeout_ms),
    {
        if self.is_running() {
            StopAction::Terminate { pid: self.process.pid, grace_ms: timeout_ms }
        } else {
            StopAction::Nothing
        }
    }

    /// Takes the report that the grace period of `pid` is over and whether
    /// the child ended in it. A child that ended is recorded as stopped; one
    /// that did not is to be killed.
    pub fn grace_elapsed(&mut self, pid: u32, ended: bool) -> (decision: GraceDecision)
        ensures
            decision == old(self)@.grace_decision(pid, ended),
            final(self)@ == old(self)@.after_grace(pid, ended),
    {
        if self.is_running() && self.process.pid == pid {
            if ended {
                self.process.status = ProcessStatus::NotRunning;
                GraceDecision::Finished
            } else {
                GraceDecision::Kill { pid }
            }
        } else {
            GraceDecision::Finished
        }
    }

    /// Takes the report that `pid` was killed after its grace period. The
    /// child is recorded as stopped, and the stop is answered with
    /// `StopTimedOut`.
    pub fn record_kill(&mut self, pid: u32) -> (result: Result<(), ProcessError>)
        ensures
            result == old(self)@.kill_result(pid),
            final(self)@ == old(self)@.after_kill(pid),
    {
        if self.is_running() && self.process.pid == pid {
            self.process.status = ProcessStatus::NotRunning;
            Err(ProcessError::StopTimedOut)
        } else {
            Ok(())
        }
    }

    /// Takes the exit watcher's report that `pid` ended by itself. Where
    /// `pid` is the running child, its status becomes `Exited` or `Crashed`;
    /// a report on any other pid changes nothing.
    pub fn on_exit(&mut self, pid: u32, report: ExitReport)
        ensures
            final(self)@ == old(self)@.after_exit(pid, report),
    {
        if self.is_running() && self.process.pid == pid {
            self.process.status =
            match report {
                ExitReport::Code(code) => if code == 0 {
                    ProcessStatus::Exited(code)
                } else {
                    ProcessStatus::Crashed(code)
                },
                ExitReport::Signal(signal) => ProcessStatus::Crashed(signal),
            };
        }
    }

    /// A snapshot of the child process.
    pub fn status(&self) -> (snapshot: ManagedProcess)
        ensures
            snapshot@ == self@.process,
    {
        ManagedProcess {
            pid: self.process.pid,
            executable_path: self.process.executable_path.clone(),
            arguments: clone_texts(&self.process.arguments),
            start_time: self.process.start_time,
            status: self.process.status,
        }
    }

    /// Keeps one more line of the child's output.
    pub fn append_log(&mut self, line: String)
        ensures
            final(self)@ == old(self)@.after_log(line@),
    {
        self.logs.push(line);
    }

    /// Copies of the newest `max_lines` output lines, oldest first.
    pub fn logs(&self, max_lines: u32) -> (lines: Vec<String>)
        ensures
            texts_of(lines@) == newest(self@.logs, max_lines as nat),
    {
        self.logs.tail(max_lines as usize)
    }
}

} // verus!
