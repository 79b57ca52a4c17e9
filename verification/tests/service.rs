use stelliberty::clash::handling;
use stelliberty::clash::ClashSignal;
use stelliberty::clash::ClashTask;
use stelliberty::clash::Handling;
use stelliberty::cli::dispatch;
use stelliberty::cli::exit_code;
use stelliberty::cli::parse_command;
use stelliberty::cli::privilege_error_message;
use stelliberty::cli::requires_elevation;
use stelliberty::cli::CliCommand;
use stelliberty::cli::CommandOutcome;
use stelliberty::cli::Dispatch;
use stelliberty::cli::ElevationProbe;
use stelliberty::cli::PrivilegeGuard;
use stelliberty::service::installer::ActionOutcome;
use stelliberty::service::installer::ServiceAction;
use stelliberty::service::installer::ServiceError;
use stelliberty::service::installer::ServiceInstallState;
use stelliberty::service::installer::ServiceInstaller;
use stelliberty::service::installer::ServiceRunState;
use stelliberty::service::installer::ServiceStatus;
use stelliberty::service::runner::RunMode;
use stelliberty::service::runner::RunnerAction;
use stelliberty::service::runner::RunnerEvent;
use stelliberty::service::runner::RunnerState;
use stelliberty::service::runner::ServiceRunner;
use stelliberty::system::messages::AutoStartStatusResult;
use stelliberty::system::messages::GetAutoStartStatus;
use stelliberty::system::messages::SetAutoStartStatus;
use stelliberty::system::SystemTask;

fn fresh() -> ServiceStatus {
    ServiceStatus { install: ServiceInstallState::NotInstalled, run: ServiceRunState::Stopped }
}

fn installed(run: ServiceRunState) -> ServiceStatus {
    ServiceStatus { install: ServiceInstallState::Installed, run }
}

fn carry_out(mut status: ServiceStatus, actions: &[ServiceAction]) -> ServiceStatus {
    for action in actions {
        status = status.after(*action);
    }
    status
}

fn args(words: &[&str]) -> Vec<String> {
    words.iter().map(|word| word.to_string()).collect()
}

fn running_service() -> ServiceRunner {
    let mut runner = ServiceRunner::new(RunMode::Service);
    runner.step(RunnerEvent::Launched);
    runner.step(RunnerEvent::ControlRegistered);
    runner.step(RunnerEvent::ListenerBound);
    assert_eq!(runner.state(), RunnerState::Running);
    runner
}

#[test]
fn install_on_a_fresh_machine() {
    let actions = ServiceInstaller::install(true, fresh()).unwrap();
    assert_eq!(actions, vec![ServiceAction::Register]);
    let status = carry_out(fresh(), &actions);
    assert_eq!(status, installed(ServiceRunState::Stopped));
    assert_eq!(ServiceInstaller::status(true, Some(ServiceRunState::Stopped)), status);
}

#[test]
fn install_twice_registers_once() {
    let first = ServiceInstaller::install(true, fresh()).unwrap();
    let status = carry_out(fresh(), &first);
    let second = ServiceInstaller::install(true, status).unwrap();
    assert_eq!(second, Vec::new());
    assert_eq!(carry_out(status, &second), status);
    assert_eq!(status.after(ServiceAction::Register), status);
    let running = installed(ServiceRunState::Running);
    assert_eq!(ServiceInstaller::install(true, running), Ok(Vec::new()));
}

#[test]
fn uninstall_on_a_fresh_machine_succeeds() {
    assert_eq!(ServiceInstaller::uninstall(true, fresh()), Ok(Vec::new()));
    let odd = ServiceStatus { install: ServiceInstallState::NotInstalled, run: ServiceRunState::Unknown };
    assert_eq!(ServiceInstaller::uninstall(true, odd), Ok(Vec::new()));
}

#[test]
fn uninstall_stops_a_service_that_is_not_stopped() {
    assert_eq!(
        ServiceInstaller::uninstall(true, installed(ServiceRunState::Stopped)),
        Ok(vec![ServiceAction::Deregister])
    );
    for run in [
        ServiceRunState::Running,
        ServiceRunState::Starting,
        ServiceRunState::StopPending,
        ServiceRunState::Unknown,
    ] {
        let actions = ServiceInstaller::uninstall(true, installed(run)).unwrap();
        assert_eq!(actions, vec![ServiceAction::RequestStop, ServiceAction::Deregister]);
        assert_eq!(carry_out(installed(run), &actions), fresh());
    }
}

#[test]
fn registration_needs_elevated_rights() {
    assert_eq!(ServiceInstaller::install(false, fresh()), Err(ServiceError::PermissionDenied));
    assert_eq!(
        ServiceInstaller::install(false, installed(ServiceRunState::Running)),
        Err(ServiceError::PermissionDenied)
    );
    assert_eq!(ServiceInstaller::uninstall(false, fresh()), Err(ServiceError::PermissionDenied));
    assert_eq!(ServiceInstaller::start(false, fresh()), Err(ServiceError::PermissionDenied));
    assert_eq!(ServiceInstaller::stop(false, fresh()), Err(ServiceError::PermissionDenied));
}

#[test]
fn start_and_stop_need_a_registration() {
    assert_eq!(ServiceInstaller::start(true, fresh()), Err(ServiceError::NotInstalled));
    assert_eq!(ServiceInstaller::stop(true, fresh()), Err(ServiceError::NotInstalled));
}

#[test]
fn start_is_requested_unless_the_service_runs() {
    assert_eq!(
        ServiceInstaller::start(true, installed(ServiceRunState::Stopped)),
        Ok(vec![ServiceAction::RequestStart])
    );
    assert_eq!(
        ServiceInstaller::start(true, installed(ServiceRunState::StopPending)),
        Ok(vec![ServiceAction::RequestStart])
    );
    assert_eq!(
        ServiceInstaller::start(true, installed(ServiceRunState::Unknown)),
        Ok(vec![ServiceAction::RequestStart])
    );
    assert_eq!(ServiceInstaller::start(true, installed(ServiceRunState::Running)), Ok(Vec::new()));
    assert_eq!(ServiceInstaller::start(true, installed(ServiceRunState::Starting)), Ok(Vec::new()));
    assert_eq!(
        installed(ServiceRunState::Stopped).after(ServiceAction::RequestStart),
        installed(ServiceRunState::Running)
    );
    assert_eq!(fresh().after(ServiceAction::RequestStart), fresh());
}

#[test]
fn stop_is_requested_unless_the_service_is_stopped() {
    assert_eq!(
        ServiceInstaller::stop(true, installed(ServiceRunState::Running)),
        Ok(vec![ServiceAction::RequestStop])
    );
    assert_eq!(
        ServiceInstaller::stop(true, installed(ServiceRunState::Starting)),
        Ok(vec![ServiceAction::RequestStop])
    );
    assert_eq!(
        ServiceInstaller::stop(true, installed(ServiceRunState::Unknown)),
        Ok(vec![ServiceAction::RequestStop])
    );
    assert_eq!(ServiceInstaller::stop(true, installed(ServiceRunState::Stopped)), Ok(Vec::new()));
    assert_eq!(
        ServiceInstaller::stop(true, installed(ServiceRunState::StopPending)),
        Ok(Vec::new())
    );
    assert_eq!(
        installed(ServiceRunState::Running).after(ServiceAction::RequestStop),
        installed(ServiceRunState::Stopped)
    );
    assert_eq!(fresh().after(ServiceAction::RequestStop), fresh());
    assert_eq!(installed(ServiceRunState::Running).after(ServiceAction::Deregister), fresh());
}

#[test]
fn status_puts_the_query_together() {
    assert_eq!(ServiceInstaller::status(false, None), fresh());
    assert_eq!(ServiceInstaller::status(false, Some(ServiceRunState::Running)), fresh());
    assert_eq!(ServiceInstaller::status(true, None), installed(ServiceRunState::Unknown));
    assert_eq!(
        ServiceInstaller::status(true, Some(ServiceRunState::StopPending)),
        installed(ServiceRunState::StopPending)
    );
}

#[test]
fn settle_counts_found_in_place_as_success() {
    assert_eq!(ServiceInstaller::settle(ServiceAction::Register, ActionOutcome::Done), Ok(()));
    assert_eq!(
        ServiceInstaller::settle(ServiceAction::Register, ActionOutcome::AlreadyInstalled),
        Ok(())
    );
    assert_eq!(
        ServiceInstaller::settle(ServiceAction::Deregister, ActionOutcome::NotInstalled),
        Ok(())
    );
    assert_eq!(
        ServiceInstaller::settle(ServiceAction::RequestStart, ActionOutcome::NotInstalled),
        Err(ServiceError::NotInstalled)
    );
    assert_eq!(
        ServiceInstaller::settle(ServiceAction::RequestStop, ActionOutcome::AlreadyInstalled),
        Err(ServiceError::RegistrationFailed)
    );
    assert_eq!(
        ServiceInstaller::settle(ServiceAction::Register, ActionOutcome::AccessDenied),
        Err(ServiceError::PermissionDenied)
    );
    assert_eq!(
        ServiceInstaller::settle(ServiceAction::Deregister, ActionOutcome::Failed),
        Err(ServiceError::RegistrationFailed)
    );
}

#[test]
fn service_runs_through_its_life_in_order() {
    let mut runner = ServiceRunner::new(RunMode::Service);
    assert_eq!(runner.state(), RunnerState::Created);
    assert_eq!(runner.step(RunnerEvent::Launched), vec![RunnerAction::RegisterControlHandler]);
    assert_eq!(runner.state(), RunnerState::Registering);
    assert_eq!(
        runner.step(RunnerEvent::ControlRegistered),
        vec![RunnerAction::Report(ServiceRunState::Starting), RunnerAction::BindListener]
    );
    assert_eq!(runner.state(), RunnerState::Binding);
    assert!(!runner.accept());
    assert_eq!(
        runner.step(RunnerEvent::ListenerBound),
        vec![RunnerAction::Report(ServiceRunState::Running)]
    );
    assert_eq!(runner.state(), RunnerState::Running);
    assert!(runner.accept());
    assert_eq!(runner.connections(), 1);
    assert_eq!(runner.step(RunnerEvent::ConnectionClosed), Vec::new());
    assert_eq!(runner.connections(), 0);
    assert_eq!(
        runner.step(RunnerEvent::StopRequested),
        vec![RunnerAction::Report(ServiceRunState::StopPending), RunnerAction::StopChild]
    );
    assert_eq!(runner.state(), RunnerState::Stopping);
    assert!(!runner.accept());
    assert_eq!(
        runner.step(RunnerEvent::ChildStopped),
        vec![
            RunnerAction::CloseListener,
            RunnerAction::Report(ServiceRunState::Stopped),
            RunnerAction::Exit(0)
        ]
    );
    assert_eq!(runner.state(), RunnerState::Stopped);
    assert!(!runner.accept());
    assert_eq!(runner.step(RunnerEvent::StopRequested), Vec::new());
    assert_eq!(runner.step(RunnerEvent::Launched), Vec::new());
    assert_eq!(runner.state(), RunnerState::Stopped);
}

#[test]
fn foreground_run_registers_no_control_handler() {
    let mut runner = ServiceRunner::new(RunMode::Foreground);
    assert_eq!(
        runner.step(RunnerEvent::Launched),
        vec![RunnerAction::Report(ServiceRunState::Starting), RunnerAction::BindListener]
    );
    assert_eq!(runner.state(), RunnerState::Binding);
    assert_eq!(
        runner.step(RunnerEvent::ListenerBound),
        vec![RunnerAction::Report(ServiceRunState::Running)]
    );
}

#[test]
fn failure_to_start_is_fatal() {
    let mut unbound = ServiceRunner::new(RunMode::Foreground);
    unbound.step(RunnerEvent::Launched);
    assert_eq!(
        unbound.step(RunnerEvent::BindFailed),
        vec![RunnerAction::ReportFailure, RunnerAction::Exit(1)]
    );
    assert_eq!(unbound.state(), RunnerState::Failed);
    assert_eq!(unbound.step(RunnerEvent::ListenerBound), Vec::new());
    assert_eq!(unbound.state(), RunnerState::Failed);
    let mut rejected = ServiceRunner::new(RunMode::Service);
    rejected.step(RunnerEvent::Launched);
    assert_eq!(
        rejected.step(RunnerEvent::ControlRejected),
        vec![RunnerAction::ReportFailure, RunnerAction::Exit(1)]
    );
    assert_eq!(rejected.state(), RunnerState::Failed);
}

#[test]
fn stop_before_running_is_kept_until_the_listener_is_bound() {
    let mut runner = ServiceRunner::new(RunMode::Service);
    runner.step(RunnerEvent::Launched);
    assert_eq!(runner.step(RunnerEvent::StopRequested), Vec::new());
    runner.step(RunnerEvent::ControlRegistered);
    assert_eq!(
        runner.step(RunnerEvent::ListenerBound),
        vec![
            RunnerAction::Report(ServiceRunState::Running),
            RunnerAction::Report(ServiceRunState::StopPending),
            RunnerAction::StopChild
        ]
    );
    assert_eq!(runner.state(), RunnerState::Stopping);
}

#[test]
fn open_connections_are_drained_before_the_end() {
    let mut runner = running_service();
    assert!(runner.accept());
    assert!(runner.accept());
    runner.step(RunnerEvent::StopRequested);
    assert_eq!(runner.step(RunnerEvent::ChildStopped), vec![RunnerAction::CloseListener]);
    assert_eq!(runner.state(), RunnerState::Draining);
    assert!(!runner.accept());
    assert_eq!(runner.step(RunnerEvent::ConnectionClosed), Vec::new());
    assert_eq!(runner.connections(), 1);
    assert_eq!(
        runner.step(RunnerEvent::ConnectionClosed),
        vec![RunnerAction::Report(ServiceRunState::Stopped), RunnerAction::Exit(0)]
    );
    assert_eq!(runner.state(), RunnerState::Stopped);
    assert_eq!(runner.connections(), 0);
}

#[test]
fn drain_deadline_cuts_connections_off() {
    let mut runner = running_service();
    assert!(runner.accept());
    runner.step(RunnerEvent::StopRequested);
    runner.step(RunnerEvent::ChildStopped);
    assert_eq!(
        runner.step(RunnerEvent::DrainDeadline),
        vec![RunnerAction::Report(ServiceRunState::Stopped), RunnerAction::Exit(0)]
    );
    assert_eq!(runner.state(), RunnerState::Stopped);
    assert_eq!(runner.connections(), 0);
}

#[test]
fn events_out_of_place_ask_for_nothing() {
    let mut runner = ServiceRunner::new(RunMode::Service);
    for event in [
        RunnerEvent::ControlRegistered,
        RunnerEvent::ControlRejected,
        RunnerEvent::ListenerBound,
        RunnerEvent::BindFailed,
        RunnerEvent::ChildStopped,
        RunnerEvent::ConnectionClosed,
        RunnerEvent::DrainDeadline,
    ] {
        assert_eq!(runner.step(event), Vec::new());
        assert_eq!(runner.state(), RunnerState::Created);
    }
    let mut running = running_service();
    assert_eq!(running.step(RunnerEvent::ChildStopped), Vec::new());
    assert_eq!(running.step(RunnerEvent::DrainDeadline), Vec::new());
    assert_eq!(running.step(RunnerEvent::BindFailed), Vec::new());
    assert_eq!(running.state(), RunnerState::Running);
}

#[test]
fn subcommands_are_read_from_the_second_word() {
    assert_eq!(parse_command(&args(&[])), CliCommand::Run);
    assert_eq!(parse_command(&args(&["svc"])), CliCommand::Run);
    assert_eq!(parse_command(&args(&["svc", "install"])), CliCommand::Install);
    assert_eq!(parse_command(&args(&["svc", "uninstall"])), CliCommand::Uninstall);
    assert_eq!(parse_command(&args(&["svc", "start"])), CliCommand::Start);
    assert_eq!(parse_command(&args(&["svc", "stop"])), CliCommand::Stop);
    assert_eq!(parse_command(&args(&["svc", "status"])), CliCommand::Status);
    assert_eq!(parse_command(&args(&["svc", "logs"])), CliCommand::Logs);
    assert_eq!(parse_command(&args(&["svc", "logs", "start"])), CliCommand::Logs);
    assert_eq!(parse_command(&args(&["svc", "Status"])), CliCommand::Unknown);
    assert_eq!(parse_command(&args(&["svc", ""])), CliCommand::Unknown);
    assert_eq!(parse_command(&args(&["status"])), CliCommand::Run);
}

#[test]
fn unprivileged_start_is_denied_and_status_is_not() {
    let user = ElevationProbe::EffectiveUid(1000);
    assert_eq!(dispatch(&args(&["svc", "start"]), user), Dispatch::Deny);
    assert_eq!(exit_code(CommandOutcome::PrivilegeMissing), 1);
    assert_eq!(privilege_error_message(), "this command needs administrator (root) rights");
    assert_eq!(dispatch(&args(&["svc", "status"]), user), Dispatch::Proceed(CliCommand::Status));
    assert_eq!(dispatch(&args(&["svc", "logs"]), user), Dispatch::Proceed(CliCommand::Logs));
    assert_eq!(exit_code(CommandOutcome::Success), 0);
}

#[test]
fn every_other_subcommand_needs_elevation() {
    let user = ElevationProbe::Token(false);
    let root = ElevationProbe::EffectiveUid(0);
    for (word, command) in [
        ("install", CliCommand::Install),
        ("uninstall", CliCommand::Uninstall),
        ("start", CliCommand::Start),
        ("stop", CliCommand::Stop),
        ("bogus", CliCommand::Unknown),
    ] {
        assert!(requires_elevation(command));
        assert_eq!(dispatch(&args(&["svc", word]), user), Dispatch::Deny);
        assert_eq!(dispatch(&args(&["svc", word]), root), Dispatch::Proceed(command));
    }
    assert!(requires_elevation(CliCommand::Run));
    assert!(!requires_elevation(CliCommand::Status));
    assert!(!requires_elevation(CliCommand::Logs));
    assert_eq!(dispatch(&args(&["svc"]), user), Dispatch::Deny);
    assert_eq!(dispatch(&args(&["svc"]), root), Dispatch::Proceed(CliCommand::Run));
}

#[test]
fn elevation_is_read_from_the_probe() {
    assert!(PrivilegeGuard::is_elevated(ElevationProbe::EffectiveUid(0)));
    assert!(!PrivilegeGuard::is_elevated(ElevationProbe::EffectiveUid(1)));
    assert!(PrivilegeGuard::is_elevated(ElevationProbe::Token(true)));
    assert!(!PrivilegeGuard::is_elevated(ElevationProbe::Token(false)));
    assert!(!PrivilegeGuard::is_elevated(ElevationProbe::Unavailable));
    assert_eq!(dispatch(&args(&["svc", "stop"]), ElevationProbe::Unavailable), Dispatch::Deny);
}

#[test]
fn exit_codes_follow_the_outcome() {
    assert_eq!(exit_code(CommandOutcome::Success), 0);
    assert_eq!(exit_code(CommandOutcome::Failed), 1);
    assert_eq!(exit_code(CommandOutcome::PrivilegeMissing), 1);
    assert_eq!(exit_code(CommandOutcome::OsError(5)), 5);
    assert_eq!(exit_code(CommandOutcome::OsError(-3)), -3);
    assert_eq!(exit_code(CommandOutcome::OsError(0)), 1);
}

#[test]
fn auto_start_answers_carry_state_or_error() {
    assert_eq!(GetAutoStartStatus.handle(Ok(true)).enabled, true);
    assert_eq!(GetAutoStartStatus.handle(Ok(true)).error_message, None);
    assert_eq!(GetAutoStartStatus.handle(Ok(false)).enabled, false);
    let failed: AutoStartStatusResult = GetAutoStartStatus.handle(Err("denied".to_string()));
    assert_eq!(failed.enabled, false);
    assert_eq!(failed.error_message, Some("denied".to_string()));
    let request = SetAutoStartStatus { enabled: true };
    let done = request.handle(Ok(true));
    assert_eq!(done.enabled, true);
    assert_eq!(done.error_message, None);
    let undone = request.handle(Err("registry is read-only".to_string()));
    assert_eq!(undone.enabled, false);
    assert_eq!(undone.error_message, Some("registry is read-only".to_string()));
}

#[test]
fn system_init_lists_its_tasks_in_order() {
    assert_eq!(
        stelliberty::system::init(false),
        vec![
            SystemTask::AutoStart,
            SystemTask::GetAutoStartStatusListener,
            SystemTask::SetAutoStartStatusListener
        ]
    );
    assert_eq!(
        stelliberty::system::init(true),
        vec![
            SystemTask::AutoStart,
            SystemTask::GetAutoStartStatusListener,
            SystemTask::SetAutoStartStatusListener,
            SystemTask::Loopback
        ]
    );
}

#[test]
fn clash_init_lists_its_listeners_in_order() {
    let listener = |signal: ClashSignal, handling: Handling| ClashTask::Listener { signal, handling };
    assert_eq!(
        stelliberty::clash::init(),
        vec![
            ClashTask::RestApiListeners,
            listener(ClashSignal::StartClashProcess, Handling::Blocking),
            listener(ClashSignal::StopClashProcess, Handling::Blocking),
            listener(ClashSignal::GetServiceStatus, Handling::Task),
            listener(ClashSignal::InstallService, Handling::Task),
            listener(ClashSignal::UninstallService, Handling::Task),
            listener(ClashSignal::StartClash, Handling::Task),
            listener(ClashSignal::StopClash, Handling::Task),
            ClashTask::OverrideListeners,
            ClashTask::ConfigListeners,
        ]
    );
    assert_eq!(handling(ClashSignal::StartClashProcess), Handling::Blocking);
    assert_eq!(handling(ClashSignal::StopClash), Handling::Task);
}
