use crate::policy::clipped_delta;
use crate::policy::spec_clipped_delta;
use std::collections::HashMap;
use vstd::prelude::*;

verus! {

broadcast use vstd::std_specs::hash::group_hash_axioms;

/// The last cumulative runtime recorded for `pid`, with a task never seen
/// before counting as zero prior runtime.
pub open spec fn spec_last_runtime(m: Map<i32, u64>, pid: i32) -> u64 {
    if m.contains_key(pid) {
        m[pid]
    } else {
        0
    }
}

/// Per-task memory of the last observed cumulative runtime, used by the
/// deadline policy to compute incremental CPU usage between decisions.
///
/// Entries are created on first observation and persist for the lifetime of
/// the scheduler instance; nothing is evicted.  The kernel may reuse a task
/// identifier after the task exits, in which case the stale entry feeds the
/// new task's first delta — a known limitation, bounded by the delta clip.
pub struct RuntimeLedger {
    map: HashMap<i32, u64>,
}

impl View for RuntimeLedger {
    type V = Map<i32, u64>;

    closed spec fn view(&self) -> Map<i32, u64> {
        self.map@
    }
}

impl RuntimeLedger {
    /// An empty ledger.
    pub fn new() -> (l: RuntimeLedger)
        ensures
            l@ == Map::<i32, u64>::empty(),
    {
        RuntimeLedger { map: HashMap::new() }
    }

    /// The last recorded cumulative runtime for `pid`; zero when the task
    /// was never observed.
    pub fn last_runtime(&self, pid: i32) -> (r: u64)
        ensures
            r == spec_last_runtime(self@, pid),
    {
        match self.map.get(&pid) {
            Some(v) => *v,
            None => 0,
        }
    }

    /// Store a new cumulative runtime observation for `pid`.  The engine
    /// reports runtimes that never decrease for a live task, so the stored
    /// value is non-decreasing across successive observations.
    pub fn record(&mut self, pid: i32, runtime: u64)
        ensures
            final(self)@ == old(self)@.insert(pid, runtime),
    {
        self.map.insert(pid, runtime);
    }

    /// One deadline-policy observation: the runtime delta since the last
    /// record, clipped to `max_slice`, and the ledger updated to the new
    /// cumulative value.
    pub fn observe(&mut self, pid: i32, runtime: u64, max_slice: u64) -> (delta: u64)
        ensures
            delta == spec_clipped_delta(spec_last_runtime(old(self)@, pid), runtime, max_slice),
            final(self)@ == old(self)@.insert(pid, runtime),
    {
        let last: u64 = self.last_runtime(pid);
        let delta: u64 = clipped_delta(last, runtime, max_slice);
        self.record(pid, runtime);
        delta
    }
}

} // verus!
