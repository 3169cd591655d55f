use vstd::prelude::*;

verus! {

/// Dispatch flag understood by the engine: ignore the target CPU field and
/// place the task on the first CPU that becomes available.
pub const CPU_ANY_FLAG: u64 = 1;

/// A task that announced readiness, observed at the moment of intake.
///
/// The engine creates one of these each time a task wants to run; the policy
/// owns it for the duration of a single scheduling decision and discards it
/// afterwards.  `sum_exec_runtime` is monotonically non-decreasing while the
/// identifier denotes the same underlying task.
#[derive(Clone, Copy, PartialEq, Eq, Structural, Debug)]
pub struct QueuedTask {
    /// Identifier that uniquely denotes the task while it is alive.
    pub pid: i32,
    /// CPU the task ran on last; never negative.
    pub cpu: i32,
    /// Flags the engine attached at intake, handed back on CPU selection.
    pub flags: u64,
    /// Total CPU time consumed so far, in nanoseconds.
    pub sum_exec_runtime: u64,
    /// Static priority weight; the engine's default is 100.
    pub weight: u64,
    /// Voluntary context switches so far.
    pub nvcsw: u64,
    /// Remaining slice budget reported by the engine.
    pub slice: u64,
    /// Virtual time last assigned by the policy, echoed back by the engine.
    pub vtime: u64,
}

/// The placement decision produced for one [`QueuedTask`].
///
/// Created fresh per decision and transferred to the engine; the policy
/// keeps no reference to it.
#[derive(Clone, Copy, PartialEq, Eq, Structural, Debug)]
pub struct DispatchedTask {
    /// Identifier copied from the queued task.
    pub pid: i32,
    /// Target CPU; never negative.
    pub cpu: i32,
    /// Dispatch flags; may carry [`CPU_ANY_FLAG`].
    pub flags: u64,
    /// Assigned time slice in nanoseconds; 0 means "use the engine default".
    pub slice_ns: u64,
    /// Virtual deadline handed to the engine's own ordering; 0 when unused.
    pub vtime: u64,
}

/// Outcome of the engine's CPU-selection call, with the negative sentinel
/// already decoded: either the identifier of an idle CPU, or none idle.
#[derive(Clone, Copy, PartialEq, Eq, Structural, Debug)]
pub enum CpuSelection {
    /// The engine found an idle CPU with this identifier.
    Idle(i32),
    /// No idle CPU is currently available.
    Busy,
}

impl CpuSelection {
    /// An idle CPU identifier reported by the engine is never negative.
    pub open spec fn wf(self) -> bool {
        match self {
            CpuSelection::Idle(c) => c >= 0,
            CpuSelection::Busy => true,
        }
    }
}

/// The CPU-selection query the policy wants answered for the task at the
/// head of the queue.
#[derive(Clone, Copy, PartialEq, Eq, Structural, Debug)]
pub struct CpuRequest {
    /// Identifier of the task to place.
    pub pid: i32,
    /// CPU the task ran on last, preferred by the engine when idle.
    pub prev_cpu: i32,
    /// Flags to hand back to the engine.
    pub flags: u64,
}

} // verus!
