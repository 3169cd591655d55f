use vstd::prelude::*;

verus! {

/// Dispatch counters published by the engine, sampled at one instant.
/// User dispatches are decisions made by this policy; kernel dispatches are
/// critical tasks the engine placed on its own.
#[derive(Clone, Copy, PartialEq, Eq, Structural, Debug)]
pub struct DispatchCounters {
    /// Total user-space dispatches so far.
    pub user: u64,
    /// Total kernel-side dispatches so far.
    pub kernel: u64,
}

/// Per-interval dispatch deltas between two samples of the engine's
/// counters.  The counters are monotone, so an earlier sample never exceeds
/// a later one.
pub fn dispatch_deltas(prev: DispatchCounters, current: DispatchCounters) -> (d: (u64, u64))
    requires
        prev.user <= current.user,
        prev.kernel <= current.kernel,
    ensures
        d.0 == current.user - prev.user,
        d.1 == current.kernel - prev.kernel,
{
    (current.user - prev.user, current.kernel - prev.kernel)
}

/// Whether a new statistics line is due: at most one per elapsed second.
pub fn stats_due(prev_ts: u64, curr_ts: u64) -> (due: bool)
    ensures
        due == (curr_ts > prev_ts),
{
    curr_ts > prev_ts
}

} // verus!
