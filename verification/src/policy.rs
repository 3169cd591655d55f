use vstd::arithmetic::div_mod::lemma_div_is_ordered_by_denominator;
use vstd::arithmetic::div_mod::lemma_div_non_zero;
use vstd::arithmetic::div_mod::lemma_div_pos_is_pos;
use vstd::prelude::*;

verus! {

/// Default time-slice budget in nanoseconds: the longest a task may run
/// before it is re-enqueued, and the upper bound on a runtime delta.
pub const DEFAULT_SLICE_NS: u64 = 5_000_000;

/// How the time budget of a decision is computed.
#[derive(Clone, Copy, PartialEq, Eq, Structural, Debug)]
pub enum SlicePolicy {
    /// Every task gets the identical, constant budget.
    Fixed,
    /// The fixed budget is divided by (batch size + 1), shrinking each slice
    /// as contention rises.
    FairDivision,
    /// The slice still uses fair division, and a virtual deadline computed
    /// from the task's incremental runtime is attached for the engine's own
    /// ordering.
    Deadline,
}

/// What to do when the engine reports that no CPU is idle.
#[derive(Clone, Copy, PartialEq, Eq, Structural, Debug)]
pub enum CpuFallback {
    /// Flag the decision so the engine picks the first CPU available.
    AnyCpu,
    /// Keep the task on the CPU it used before.
    Sticky,
    /// Stop dispatching for this pass and leave the rest of the queue for
    /// the next cycle: all CPUs are saturated.
    Backpressure,
}

/// The per-deployment choices of one scheduler instance.
#[derive(Clone, Copy, PartialEq, Eq, Structural, Debug)]
pub struct SchedulerConfig {
    /// Time-budget computation.
    pub slice_policy: SlicePolicy,
    /// Reaction to a congested CPU-selection answer.
    pub cpu_fallback: CpuFallback,
    /// Fixed slice budget in nanoseconds; also the clip bound for runtime
    /// deltas under the deadline policy.
    pub slice_ns: u64,
}

impl SchedulerConfig {
    /// A configuration is usable when its budget is positive.
    pub open spec fn wf(self) -> bool {
        self.slice_ns > 0
    }
}

impl Default for SchedulerConfig {
    /// Fair slice division with the any-CPU fallback and the default budget.
    fn default() -> (c: SchedulerConfig)
        ensures
            c == (SchedulerConfig {
                slice_policy: SlicePolicy::FairDivision,
                cpu_fallback: CpuFallback::AnyCpu,
                slice_ns: DEFAULT_SLICE_NS,
            }),
            c.wf(),
    {
        SchedulerConfig {
            slice_policy: SlicePolicy::FairDivision,
            cpu_fallback: CpuFallback::AnyCpu,
            slice_ns: DEFAULT_SLICE_NS,
        }
    }
}

/// A weight of zero would divide by zero in the deadline formula; policy is
/// to clamp it to the minimum weight 1.
pub open spec fn spec_clamped_weight(weight: u64) -> u64 {
    if weight == 0 {
        1
    } else {
        weight
    }
}

/// The fair-division slice: the budget divided by (batch size + 1).
pub open spec fn spec_fair_slice(budget: u64, nr_waiting: u64) -> u64 {
    (budget as int / (nr_waiting as int + 1)) as u64
}

/// Incremental runtime since the previous observation, clipped from above by
/// `max_slice`; an observation that went backwards counts as zero.
pub open spec fn spec_clipped_delta(last: u64, current: u64, max_slice: u64) -> u64 {
    let raw = if current >= last {
        (current - last) as u64
    } else {
        0u64
    };
    if raw > max_slice {
        max_slice
    } else {
        raw
    }
}

/// How far the virtual deadline advances for a runtime delta: delta * 100 /
/// weight, with weight 0 clamped to 1.  A lower weight yields a larger
/// advance and hence a lower scheduling priority.
pub open spec fn spec_deadline_increment(delta: u64, weight: u64) -> int {
    delta * 100 / (spec_clamped_weight(weight) as int)
}

/// The virtual deadline handed to the engine: now plus the weighted
/// increment, saturating at `u64::MAX`.
pub open spec fn spec_deadline(now: u64, delta: u64, weight: u64) -> u64 {
    let d = now + spec_deadline_increment(delta, weight);
    if d > u64::MAX {
        u64::MAX
    } else {
        d as u64
    }
}

/// Fair-division slice assignment.
pub fn fair_slice(budget: u64, nr_waiting: u64) -> (slice: u64)
    ensures
        slice == spec_fair_slice(budget, nr_waiting),
{
    if nr_waiting == u64::MAX {
        proof {
            assert(budget as int / (u64::MAX as int + 1) == 0) by {
                vstd::arithmetic::div_mod::lemma_basic_div(budget as int, u64::MAX as int + 1);
            }
        }
        0
    } else {
        budget / (nr_waiting + 1)
    }
}

/// Runtime delta since the last observation, clipped to the maximum slice.
pub fn clipped_delta(last: u64, current: u64, max_slice: u64) -> (delta: u64)
    ensures
        delta == spec_clipped_delta(last, current, max_slice),
{
    let raw: u64 = if current >= last {
        current - last
    } else {
        0
    };
    if raw > max_slice {
        max_slice
    } else {
        raw
    }
}

/// Virtual deadline for a task that consumed `delta` nanoseconds since its
/// last observation.
pub fn deadline_vtime(now: u64, delta: u64, weight: u64) -> (vtime: u64)
    ensures
        vtime == spec_deadline(now, delta, weight),
{
    let w: u64 = if weight == 0 {
        1
    } else {
        weight
    };
    let inc: u128 = (delta as u128) * 100 / (w as u128);
    let total: u128 = (now as u128) + inc;
    if total > (u64::MAX as u128) {
        u64::MAX
    } else {
        total as u64
    }
}

/// Law: the fair-division slice budget / (n + 1) is positive whenever the
/// budget is positive and the batch size n is below the budget.  (For
/// n >= budget the exact quotient is 0: integer division leaves nothing to
/// hand out.)
pub proof fn lemma_fair_slice_positive(budget: u64, nr_waiting: u64)
    requires
        0 < budget,
        nr_waiting < budget,
    ensures
        spec_fair_slice(budget, nr_waiting) > 0,
{
    lemma_div_non_zero(budget as int, nr_waiting as int + 1);
}

/// Law: the computed runtime delta never exceeds the maximum slice, even
/// when the raw difference is larger (after a restart reset the ledger, for
/// example).
pub proof fn lemma_delta_clipped(last: u64, current: u64, max_slice: u64)
    ensures
        spec_clipped_delta(last, current, max_slice) <= max_slice,
{
}

/// Law: for the same delta, a lower weight produces a deadline increment at
/// least as large as a higher weight's; in particular weight 1 dominates
/// every other weight.
pub proof fn lemma_weight_orders_increment(delta: u64, w1: u64, w2: u64)
    requires
        1 <= w1 <= w2,
    ensures
        spec_deadline_increment(delta, w1) >= spec_deadline_increment(delta, w2),
{
    lemma_div_is_ordered_by_denominator(delta * 100, w1 as int, w2 as int);
}

/// Law: for a task observed twice with non-decreasing cumulative runtime,
/// the second deadline is at least the first, provided the clock has
/// advanced past the first deadline's increment.  (If the clock stands
/// still while the delta shrinks, the formula alone does not give
/// monotonicity.)
pub proof fn lemma_deadline_monotone(
    now1: u64,
    now2: u64,
    last1: u64,
    current1: u64,
    current2: u64,
    weight: u64,
    max_slice: u64,
)
    requires
        last1 <= current1 <= current2,
        now1 + spec_deadline_increment(spec_clipped_delta(last1, current1, max_slice), weight)
            <= now2,
    ensures
        spec_deadline(now2, spec_clipped_delta(current1, current2, max_slice), weight)
            >= spec_deadline(now1, spec_clipped_delta(last1, current1, max_slice), weight),
{
    let d1 = spec_clipped_delta(last1, current1, max_slice);
    let d2 = spec_clipped_delta(current1, current2, max_slice);
    let w = spec_clamped_weight(weight) as int;
    lemma_div_pos_is_pos(d1 * 100, w);
    lemma_div_pos_is_pos(d2 * 100, w);
}

} // verus!
