//! The telemetry-ping collaborator's decision core.
//!
//! A ping lives either in the parent process, which owns the telemetry
//! backend, or in a child process, which must route everything over IPC.
//! The decisions — which process kind a ping is created for, and what a
//! submit or enable call may do there — are pure functions of that state;
//! the instrumentation layer around the core performs the chosen action.

use vstd::prelude::*;

verus! {

/// Which process a ping was created in.
#[derive(Clone, Copy, Debug, PartialEq, Eq, Structural)]
pub enum PingProcess {
    /// The parent process: calls reach the telemetry backend directly.
    Parent,
    /// A child process: ping calls cannot be served here.
    Child,
}

/// What a submit call must do.
#[derive(Clone, Copy, Debug, PartialEq, Eq, Structural)]
pub enum SubmitAction {
    /// Hand the ping to the telemetry backend for eventual uploading.
    Deliver,
    /// Drop the ping and report an error: a child process cannot submit.
    DiscardWithError,
    /// Abort: a child process submitted under automation, where the
    /// instrumentation mistake must surface loudly.
    Abort,
}

/// Decides which process kind a new ping belongs to: a process that needs
/// IPC gets a child-side ping, any other the parent-side one.
pub fn ping_process(needs_ipc: bool) -> (r: PingProcess)
    ensures
        r == (if needs_ipc {
            PingProcess::Child
        } else {
            PingProcess::Parent
        }),
{
    if needs_ipc {
        PingProcess::Child
    } else {
        PingProcess::Parent
    }
}

/// Decides what a submit call does: the parent delivers; a child discards
/// with an error, or aborts when running under automation.
pub fn submit_action(process: PingProcess, in_automation: bool) -> (r: SubmitAction)
    ensures
        process is Parent ==> r == SubmitAction::Deliver,
        process is Child && !in_automation ==> r == SubmitAction::DiscardWithError,
        process is Child && in_automation ==> r == SubmitAction::Abort,
{
    match process {
        PingProcess::Parent => SubmitAction::Deliver,
        PingProcess::Child => {
            if in_automation {
                SubmitAction::Abort
            } else {
                SubmitAction::DiscardWithError
            }
        },
    }
}

/// Decides whether an enable or test call may proceed: only the parent
/// process may use those APIs; a child must treat the call as a programming
/// error.
pub fn ping_api_allowed(process: PingProcess) -> (r: bool)
    ensures
        r == (process is Parent),
{
    matches!(process, PingProcess::Parent)
}

} // verus!
