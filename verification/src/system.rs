//! System integration of the hub: start-up at login and, on Windows, the
//! loopback exemption.

pub mod messages;

use vstd::prelude::*;

verus! {

/// One thing to set up at start.
#[derive(Clone, Copy, Debug, PartialEq, Eq, Structural)]
pub enum SystemTask {
    /// Prepare the management of start-up at login.
    AutoStart,
    /// Listen for requests to report start-up at login.
    GetAutoStartStatusListener,
    /// Listen for requests to change start-up at login.
    SetAutoStartStatusListener,
    /// Prepare the loopback exemption.
    Loopback,
}

/// The listeners for the messages about start-up at login.
pub open spec fn message_listeners() -> Seq<SystemTask> {
    seq![SystemTask::GetAutoStartStatusListener, SystemTask::SetAutoStartStatusListener]
}

/// What is set up at start, in order. The loopback exemption exists on
/// Windows only.
pub open spec fn init_tasks(windows: bool) -> Seq<SystemTask> {
    if windows {
        seq![SystemTask::AutoStart] + message_listeners() + seq![SystemTask::Loopback]
    } else {
        seq![SystemTask::AutoStart] + message_listeners()
    }
}

/// Adds the listeners for the messages about start-up at login.
fn init_message_listeners(tasks: &mut Vec<SystemTask>)
    ensures
        final(tasks)@ == old(tasks)@ + message_listeners(),
{
    tasks.push(SystemTask::GetAutoStartStatusListener);
    tasks.push(SystemTask::SetAutoStartStatusListener);
    assert(tasks@ =~= old(tasks)@ + message_listeners());
}

/// What the hub sets up at start for system integration, in order:
/// start-up at login, the listeners for its messages, and on Windows the
/// loopback exemption.
pub fn init(windows: bool) -> (tasks: Vec<SystemTask>)
    ensures
        tasks@ == init_tasks(windows),
{
    let mut tasks: Vec<SystemTask> = Vec::new();
    tasks.push(SystemTask::AutoStart);
    init_message_listeners(&mut tasks);
    if windows {
        tasks.push(SystemTask::Loopback);
    }
    assert(tasks@ =~= init_tasks(windows));
    tasks
}

} // verus!
