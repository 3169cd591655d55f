use vstd::prelude::*;

verus! {

/// Where the scheduler process stands in its life: running decision cycles,
/// acknowledging an engine-requested exit, collecting the exit report, and
/// then either rebuilding a fresh instance or terminating.
#[derive(Clone, Copy, PartialEq, Eq, Structural, Debug)]
pub enum LifecycleState {
    /// Draining intake, deciding, submitting, notifying.
    Running,
    /// The engine signalled shutdown.
    Exited,
    /// Collecting the structured exit report.
    Reporting,
    /// A fresh scheduler instance is being created; no state survives.
    Reinitializing,
    /// The process exits cleanly.
    Terminated,
}

/// What the outer loop observed since the last lifecycle step.
#[derive(Clone, Copy, PartialEq, Eq, Structural, Debug)]
pub enum LifecycleEvent {
    /// The once-per-cycle poll of the engine's exit flag.
    ExitPolled { exited: bool },
    /// The loop is ready to collect the exit report.
    ReportRequested,
    /// The exit report was collected; it says whether to restart.
    ReportCollected { should_restart: bool },
    /// The fresh scheduler instance is in place.
    Restarted,
}

/// The lifecycle transition relation.  An event that does not apply to the
/// current state leaves the state unchanged; `Terminated` is absorbing.
pub open spec fn spec_lifecycle_step(s: LifecycleState, e: LifecycleEvent) -> LifecycleState {
    match (s, e) {
        (LifecycleState::Running, LifecycleEvent::ExitPolled { exited }) => if exited {
            LifecycleState::Exited
        } else {
            LifecycleState::Running
        },
        (LifecycleState::Exited, LifecycleEvent::ReportRequested) => LifecycleState::Reporting,
        (
            LifecycleState::Reporting,
            LifecycleEvent::ReportCollected { should_restart },
        ) => if should_restart {
            LifecycleState::Reinitializing
        } else {
            LifecycleState::Terminated
        },
        (LifecycleState::Reinitializing, LifecycleEvent::Restarted) => LifecycleState::Running,
        _ => s,
    }
}

/// Advance the lifecycle machine by one observed event.
pub fn lifecycle_step(s: LifecycleState, e: LifecycleEvent) -> (t: LifecycleState)
    ensures
        t == spec_lifecycle_step(s, e),
{
    match (s, e) {
        (LifecycleState::Running, LifecycleEvent::ExitPolled { exited }) => {
            if exited {
                LifecycleState::Exited
            } else {
                LifecycleState::Running
            }
        },
        (LifecycleState::Exited, LifecycleEvent::ReportRequested) => LifecycleState::Reporting,
        (LifecycleState::Reporting, LifecycleEvent::ReportCollected { should_restart }) => {
            if should_restart {
                LifecycleState::Reinitializing
            } else {
                LifecycleState::Terminated
            }
        },
        (LifecycleState::Reinitializing, LifecycleEvent::Restarted) => LifecycleState::Running,
        _ => s,
    }
}

} // verus!
