//! Registration of the service with the operating system's service manager.
//!
//! Nothing is remembered between calls: each operation takes what the
//! service manager reports now and answers with the requests to make of it,
//! in order. `ServiceStatus::after` says what the service manager reports
//! once a request was carried out.

use vstd::prelude::*;

verus! {

/// Whether the service is registered.
#[derive(Clone, Copy, Debug, PartialEq, Eq, Structural)]
pub enum ServiceInstallState {
    NotInstalled,
    Installed,
}

/// What the service manager says the service does.
#[derive(Clone, Copy, Debug, PartialEq, Eq, Structural)]
pub enum ServiceRunState {
    Stopped,
    Starting,
    Running,
    StopPending,
    Unknown,
}

/// What the service manager reports of the service.
#[derive(Clone, Copy, Debug, PartialEq, Eq, Structural)]
pub struct ServiceStatus {
    pub install: ServiceInstallState,
    pub run: ServiceRunState,
}

/// One request to the service manager.
#[derive(Clone, Copy, Debug, PartialEq, Eq, Structural)]
pub enum ServiceAction {
    /// Register the current executable under the service's name.
    Register,
    /// Remove the registration.
    Deregister,
    /// Start the registered service.
    RequestStart,
    /// Stop the registered service.
    RequestStop,
}

/// Why an operation on the registration failed.
#[derive(Clone, Copy, Debug, PartialEq, Eq, Structural)]
pub enum ServiceError {
    /// The caller lacks the rights to change the registration.
    PermissionDenied,
    /// The service is not registered, so it can be neither started nor
    /// stopped.
    NotInstalled,
    /// The service manager failed to carry out a request.
    RegistrationFailed,
}

/// How the service manager answered one request.
#[derive(Clone, Copy, Debug, PartialEq, Eq, Structural)]
pub enum ActionOutcome {
    /// It carried the request out.
    Done,
    /// It holds a registration already.
    AlreadyInstalled,
    /// It holds no registration.
    NotInstalled,
    /// It refused for want of rights.
    AccessDenied,
    /// It failed otherwise.
    Failed,
}

/// The status of a machine on which the service was never registered.
pub open spec fn fresh() -> ServiceStatus {
    ServiceStatus { install: ServiceInstallState::NotInstalled, run: ServiceRunState::Stopped }
}

/// What the service manager reports once it carried out `action`.
pub open spec fn applied(status: ServiceStatus, action: ServiceAction) -> ServiceStatus {
    match action {
        ServiceAction::Register => match status.install {
            ServiceInstallState::NotInstalled => ServiceStatus {
                install: ServiceInstallState::Installed,
                run: ServiceRunState::Stopped,
            },
            ServiceInstallState::Installed => status,
        },
        ServiceAction::Deregister => fresh(),
        ServiceAction::RequestStart => match status.install {
            ServiceInstallState::NotInstalled => status,
            ServiceInstallState::Installed => ServiceStatus { run: ServiceRunState::Running, ..status },
        },
        ServiceAction::RequestStop => match status.install {
            ServiceInstallState::NotInstalled => status,
            ServiceInstallState::Installed => ServiceStatus { run: ServiceRunState::Stopped, ..status },
        },
    }
}

/// What the service manager reports once it carried out `actions`, one
/// after another.
pub open spec fn applied_all(status: ServiceStatus, actions: Seq<ServiceAction>) -> ServiceStatus
    decreases actions.len(),
{
    if actions.len() == 0 {
        status
    } else {
        applied_all(applied(status, actions.first()), actions.drop_first())
    }
}

/// The requests that register the service.
pub open spec fn install_plan(elevated: bool, observed: ServiceStatus) -> Result<
    Seq<ServiceAction>,
    ServiceError,
> {
    if !elevated {
        Err(ServiceError::PermissionDenied)
    } else if observed.install == ServiceInstallState::Installed {
        Ok(Seq::empty())
    } else {
        Ok(seq![ServiceAction::Register])
    }
}

/// The requests that remove the service: it is stopped first unless the
/// service manager reports it as stopped.
pub open spec fn uninstall_plan(elevated: bool, observed: ServiceStatus) -> Result<
    Seq<ServiceAction>,
    ServiceError,
> {
    if !elevated {
        Err(ServiceError::PermissionDenied)
    } else if observed.install == ServiceInstallState::NotInstalled {
        Ok(Seq::empty())
    } else if observed.run == ServiceRunState::Stopped {
        Ok(seq![ServiceAction::Deregister])
    } else {
        Ok(seq![ServiceAction::RequestStop, ServiceAction::Deregister])
    }
}

/// The requests that start the registered service.
pub open spec fn start_plan(elevated: bool, observed: ServiceStatus) -> Result<
    Seq<ServiceAction>,
    ServiceError,
> {
    if !elevated {
        Err(ServiceError::PermissionDenied)
    } else if observed.install == ServiceInstallState::NotInstalled {
        Err(ServiceError::NotInstalled)
    } else if observed.run == ServiceRunState::Running || observed.run
        == ServiceRunState::Starting {
        Ok(Seq::empty())
    } else {
        Ok(seq![ServiceAction::RequestStart])
    }
}

/// The requests that stop the registered service.
pub open spec fn stop_plan(elevated: bool, observed: ServiceStatus) -> Result<
    Seq<ServiceAction>,
    ServiceError,
> {
    if !elevated {
        Err(ServiceError::PermissionDenied)
    } else if observed.install == ServiceInstallState::NotInstalled {
        Err(ServiceError::NotInstalled)
    } else if observed.run == ServiceRunState::Stopped || observed.run
        == ServiceRunState::StopPending {
        Ok(Seq::empty())
    } else {
        Ok(seq![ServiceAction::RequestStop])
    }
}

/// What a query of the service manager amounts to: without a registration
/// the service is not installed and stopped; with one it is installed, and
/// does what the manager says, if it says.
pub open spec fn status_of(registered: bool, run: Option<ServiceRunState>) -> ServiceStatus {
    if !registered {
        fresh()
    } else {
        ServiceStatus {
            install: ServiceInstallState::Installed,
            run: match run {
                Some(state) => state,
                None => ServiceRunState::Unknown,
            },
        }
    }
}

/// Whether the service manager's answer to `action` counts as success. To
/// find a registration in place when registering, or none when removing
/// one, is success.
pub open spec fn settled(action: ServiceAction, outcome: ActionOutcome) -> Result<
    (),
    ServiceError,
> {
    match outcome {
        ActionOutcome::Done => Ok(()),
        ActionOutcome::AlreadyInstalled => if action == ServiceAction::Register {
            Ok(())
        } else {
            Err(ServiceError::RegistrationFailed)
        },
        ActionOutcome::NotInstalled => if action == ServiceAction::Deregister {
            Ok(())
        } else {
            Err(ServiceError::NotInstalled)
        },
        ActionOutcome::AccessDenied => Err(ServiceError::PermissionDenied),
        ActionOutcome::Failed => Err(ServiceError::RegistrationFailed),
    }
}

/// Installing leaves exactly one registration, however often it is done:
/// after the first time the service is installed, and a second install has
/// nothing left to request.
pub proof fn lemma_install_is_idempotent(observed: ServiceStatus)
    ensures
        install_plan(true, observed) is Ok,
        ({
            let once = applied_all(observed, install_plan(true, observed).unwrap());
            &&& once.install == ServiceInstallState::Installed
            &&& install_plan(true, once) == Ok::<Seq<ServiceAction>, ServiceError>(Seq::empty())
            &&& applied_all(once, install_plan(true, once).unwrap()) == once
        }),
{
    let plan = install_plan(true, observed).unwrap();
    reveal_with_fuel(applied_all, 3);
    if plan.len() > 0 {
        assert(plan.drop_first() =~= Seq::<ServiceAction>::empty());
    }
}

/// Installing on a machine that never had the service gives a service that
/// is installed and stopped.
pub proof fn lemma_install_on_fresh_machine()
    ensures
        install_plan(true, fresh()) == Ok::<Seq<ServiceAction>, ServiceError>(
            seq![ServiceAction::Register],
        ),
        applied_all(fresh(), seq![ServiceAction::Register]) == (ServiceStatus {
            install: ServiceInstallState::Installed,
            run: ServiceRunState::Stopped,
        }),
{
    reveal_with_fuel(applied_all, 3);
    assert(seq![ServiceAction::Register].drop_first() =~= Seq::<ServiceAction>::empty());
}

/// Uninstalling what is not installed succeeds and requests nothing.
pub proof fn lemma_uninstall_not_installed(run: ServiceRunState)
    ensures
        uninstall_plan(
            true,
            ServiceStatus { install: ServiceInstallState::NotInstalled, run },
        ) == Ok::<Seq<ServiceAction>, ServiceError>(Seq::empty()),
{
}

/// Uninstalling leaves no registration and nothing running.
pub proof fn lemma_uninstall_removes(observed: ServiceStatus)
    requires
        observed.install == ServiceInstallState::Installed,
    ensures
        uninstall_plan(true, observed) is Ok,
        applied_all(observed, uninstall_plan(true, observed).unwrap()) == fresh(),
{
    let plan = uninstall_plan(true, observed).unwrap();
    reveal_with_fuel(applied_all, 4);
    if plan.len() == 1 {
        assert(plan.drop_first() =~= Seq::<ServiceAction>::empty());
    } else {
        assert(plan.drop_first() =~= seq![ServiceAction::Deregister]);
        assert(plan.drop_first().drop_first() =~= Seq::<ServiceAction>::empty());
    }
}

impl ServiceStatus {
    /// What the service manager reports once it carried out `action`.
    pub fn after(self, action: ServiceAction) -> (status: ServiceStatus)
        ensures
            status == applied(self, action),
    {
        let stopped = ServiceStatus {
            install: ServiceInstallState::NotInstalled,
            run: ServiceRunState::Stopped,
        };
        match action {
            ServiceAction::Register => match self.install {
                ServiceInstallState::NotInstalled => ServiceStatus {
                    install: ServiceInstallState::Installed,
                    run: ServiceRunState::Stopped,
                },
                ServiceInstallState::Installed => self,
            },
            ServiceAction::Deregister => stopped,
            ServiceAction::RequestStart => match self.install {
                ServiceInstallState::NotInstalled => self,
                ServiceInstallState::Installed => ServiceStatus {
                    install: self.install,
                    run: ServiceRunState::Running,
                },
            },
            ServiceAction::RequestStop => match self.install {
                ServiceInstallState::NotInstalled => self,
                ServiceInstallState::Installed => ServiceStatus {
                    install: self.install,
                    run: ServiceRunState::Stopped,
                },
            },
        }
    }
}

/// The operations on the service's registration.
pub struct ServiceInstaller;

impl ServiceInstaller {
    /// Registers the service. Without elevated rights the answer is
    /// `PermissionDenied`; a registration that is in place is success with
    /// nothing to request.
    pub fn install(elevated: bool, observed: ServiceStatus) -> (result: Result<
        Vec<ServiceAction>,
        ServiceError,
    >)
        ensures
            result matches Ok(actions) ==> install_plan(elevated, observed) == Ok::<
                Seq<ServiceAction>,
                ServiceError,
            >(actions@),
            result matches Err(error) ==> install_plan(elevated, observed) == Err::<
                Seq<ServiceAction>,
                ServiceError,
            >(error),
    {
        if !elevated {
            return Err(ServiceError::PermissionDenied);
        }
        let mut actions: Vec<ServiceAction> = Vec::new();
        match observed.install {
            ServiceInstallState::Installed => {},
            ServiceInstallState::NotInstalled => {
                actions.push(ServiceAction::Register);
            },
        }
        assert(actions@ =~= install_plan(elevated, observed).unwrap());
        Ok(actions)
    }

    /// Removes the service, stopping it first unless it is stopped. Where
    /// nothing is registered this is success with nothing to request.
    pub fn uninstall(elevated: bool, observed: ServiceStatus) -> (result: Result<
        Vec<ServiceAction>,
        ServiceError,
    >)
        ensures
            result matches Ok(actions) ==> uninstall_plan(elevated, observed) == Ok::<
                Seq<ServiceAction>,
                ServiceError,
            >(actions@),
            result matches Err(error) ==> uninstall_plan(elevated, observed) == Err::<
                Seq<ServiceAction>,
                ServiceError,
            >(error),
    {
        if !elevated {
            return Err(ServiceError::PermissionDenied);
        }
        let mut actions: Vec<ServiceAction> = Vec::new();
        match observed.install {
            ServiceInstallState::NotInstalled => {},
            ServiceInstallState::Installed => {
                match observed.run {
                    ServiceRunState::Stopped => {},
                    _ => {
                        actions.push(ServiceAction::RequestStop);
                    },
                }
                actions.push(ServiceAction::Deregister);
            },
        }
        assert(actions@ =~= uninstall_plan(elevated, observed).unwrap());
        Ok(actions)
    }

    /// Starts the registered service, unless it runs or is starting.
    pub fn start(elevated: bool, observed: ServiceStatus) -> (result: Result<
        Vec<ServiceAction>,
        ServiceError,
    >)
        ensures
            result matches Ok(actions) ==> start_plan(elevated, observed) == Ok::<
                Seq<ServiceAction>,
                ServiceError,
            >(actions@),
            result matches Err(error) ==> start_plan(elevated, observed) == Err::<
                Seq<ServiceAction>,
                ServiceError,
            >(error),
    {
        if !elevated {
            return Err(ServiceError::PermissionDenied);
        }
        let mut actions: Vec<ServiceAction> = Vec::new();
        match observed.install {
            ServiceInstallState::NotInstalled => {
                return Err(ServiceError::NotInstalled);
            },
            ServiceInstallState::Installed => {
                match observed.run {
                    ServiceRunState::Running => {},
                    ServiceRunState::Starting => {},
                    _ => {
                        actions.push(ServiceAction::RequestStart);
                    },
                }
            },
        }
        assert(actions@ =~= start_plan(elevated, observed).unwrap());
        Ok(actions)
    }

    /// Stops the registered service, unless it is stopped or stopping.
    pub fn stop(elevated: bool, observed: ServiceStatus) -> (result: Result<
        Vec<ServiceAction>,
        ServiceError,
    >)
        ensures
            result matches Ok(actions) ==> stop_plan(elevated, observed) == Ok::<
                Seq<ServiceAction>,
                ServiceError,
            >(actions@),
            result matches Err(error) ==> stop_plan(elevated, observed) == Err::<
                Seq<ServiceAction>,
                ServiceError,
            >(error),
    {
        if !elevated {
            return Err(ServiceError::PermissionDenied);
        }
        let mut actions: Vec<ServiceAction> = Vec::new();
        match observed.install {
            ServiceInstallState::NotInstalled => {
                return Err(ServiceError::NotInstalled);
            },
            ServiceInstallState::Installed => {
                match observed.run {
                    ServiceRunState::Stopped => {},
                    ServiceRunState::StopPending => {},
                    _ => {
                        actions.push(ServiceAction::RequestStop);
                    },
                }
            },
        }
        assert(actions@ =~= stop_plan(elevated, observed).unwrap());
        Ok(actions)
    }

    /// Puts together what a query of the service manager gave.
    pub fn status(registered: bool, run: Option<ServiceRunState>) -> (status: ServiceStatus)
        ensures
            status == status_of(registered, run),
    {
        if !registered {
            ServiceStatus {
                install: ServiceInstallState::NotInstalled,
                run: ServiceRunState::Stopped,
            }
        } else {
            ServiceStatus {
                install: ServiceInstallState::Installed,
                run: match run {
                    Some(state) => state,
                    None => ServiceRunState::Unknown,
                },
            }
        }
    }

    /// Judges the service manager's answer to one request.
    pub fn settle(action: ServiceAction, outcome: ActionOutcome) -> (result: Result<
        (),
        ServiceError,
    >)
        ensures
            result == settled(action, outcome),
    {
        match outcome {
            ActionOutcome::Done => Ok(()),
            ActionOutcome::AlreadyInstalled => match action {
                ServiceAction::Register => Ok(()),
                _ => Err(ServiceError::RegistrationFailed),
            },
            ActionOutcome::NotInstalled => match action {
                ServiceAction::Deregister => Ok(()),
                _ => Err(ServiceError::NotInstalled),
            },
            ActionOutcome::AccessDenied => Err(ServiceError::PermissionDenied),
            ActionOutcome::Failed => Err(ServiceError::RegistrationFailed),
        }
    }
}

} // verus!
