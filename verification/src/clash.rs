//! The hub's handling of the proxy core: which requests of the user
//! interface it listens for, and how each is handled.
//!
//! The core is driven in one of two ways: the hub runs it as its own child,
//! or the service runs it with elevated rights. Requests of the first kind
//! block while they work and are handled off the scheduler's threads;
//! requests of the second kind wait on the service's channel and are
//! handled as tasks.

use vstd::prelude::*;

verus! {

/// A request of the user interface about the proxy core.
#[derive(Clone, Copy, Debug, PartialEq, Eq, Structural)]
pub enum ClashSignal {
    /// Start the core as the hub's own child.
    StartClashProcess,
    /// Stop the hub's own child.
    StopClashProcess,
    /// Report the state of the service.
    GetServiceStatus,
    /// Install the service.
    InstallService,
    /// Remove the service.
    UninstallService,
    /// Start the core through the service.
    StartClash,
    /// Stop the core through the service.
    StopClash,
}

/// How a request is handled once it has arrived.
#[derive(Clone, Copy, Debug, PartialEq, Eq, Structural)]
pub enum Handling {
    /// On a thread for blocking work, and awaited before the next request
    /// of its kind is taken.
    Blocking,
    /// As a task of its own, not awaited.
    Task,
}

/// One thing to set up at start.
#[derive(Clone, Copy, Debug, PartialEq, Eq, Structural)]
pub enum ClashTask {
    /// The listeners of the REST channel to the core.
    RestApiListeners,
    /// The listener for one kind of request.
    Listener { signal: ClashSignal, handling: Handling },
    /// The listeners for configuration overrides.
    OverrideListeners,
    /// The listeners for configuration generation.
    ConfigListeners,
}

/// How requests of a kind are handled: those that drive the hub's own child
/// block, those that go through the service do not.
pub open spec fn handling_of(signal: ClashSignal) -> Handling {
    match signal {
        ClashSignal::StartClashProcess => Handling::Blocking,
        ClashSignal::StopClashProcess => Handling::Blocking,
        _ => Handling::Task,
    }
}

/// The listener for a kind of request.
pub open spec fn listener(signal: ClashSignal) -> ClashTask {
    ClashTask::Listener { signal, handling: handling_of(signal) }
}

/// What is set up at start, in order.
pub open spec fn init_tasks() -> Seq<ClashTask> {
    seq![
        ClashTask::RestApiListeners,
        listener(ClashSignal::StartClashProcess),
        listener(ClashSignal::StopClashProcess),
        listener(ClashSignal::GetServiceStatus),
        listener(ClashSignal::InstallService),
        listener(ClashSignal::UninstallService),
        listener(ClashSignal::StartClash),
        listener(ClashSignal::StopClash),
        ClashTask::OverrideListeners,
        ClashTask::ConfigListeners,
    ]
}

/// How requests of a kind are handled.
pub fn handling(signal: ClashSignal) -> (result: Handling)
    ensures
        result == handling_of(signal),
{
    match signal {
        ClashSignal::StartClashProcess => Handling::Blocking,
        ClashSignal::StopClashProcess => Handling::Blocking,
        _ => Handling::Task,
    }
}

/// What the hub sets up at start for the proxy core, in order: the REST
/// listeners, one listener for each kind of request, then the listeners for
/// overrides and for configuration.
pub fn init() -> (tasks: Vec<ClashTask>)
    ensures
        tasks@ == init_tasks(),
{
    let mut tasks: Vec<ClashTask> = Vec::new();
    tasks.push(ClashTask::RestApiListeners);
    tasks.push(
        ClashTask::Listener {
            signal: ClashSignal::StartClashProcess,
            handling: handling(ClashSignal::StartClashProcess),
        },
    );
    tasks.push(
        ClashTask::Listener {
            signal: ClashSignal::StopClashProcess,
            handling: handling(ClashSignal::StopClashProcess),
        },
    );
    tasks.push(
        ClashTask::Listener {
            signal: ClashSignal::GetServiceStatus,
            handling: handling(ClashSignal::GetServiceStatus),
        },
    );
    tasks.push(
        ClashTask::Listener {
            signal: ClashSignal::InstallService,
            handling: handling(ClashSignal::InstallService),
        },
    );
    tasks.push(
        ClashTask::Listener {
            signal: ClashSignal::UninstallService,
            handling: handling(ClashSignal::UninstallService),
        },
    );
    tasks.push(
        ClashTask::Listener {
            signal: ClashSignal::StartClash,
            handling: handling(ClashSignal::StartClash),
        },
    );
    tasks.push(
        ClashTask::Listener {
            signal: ClashSignal::StopClash,
            handling: handling(ClashSignal::StopClash),
        },
    );
    tasks.push(ClashTask::OverrideListeners);
    tasks.push(ClashTask::ConfigListeners);
    assert(tasks@ =~= init_tasks());
    tasks
}

} // verus!
