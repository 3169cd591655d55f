use crate::clock::secs_since_unix_epoch;
use crate::clock::system_time_now;
use crate::ledger::spec_last_runtime;
use crate::ledger::RuntimeLedger;
use crate::policy::deadline_vtime;
use crate::policy::fair_slice;
use crate::policy::spec_clipped_delta;
use crate::policy::spec_deadline;
use crate::policy::spec_fair_slice;
use crate::policy::CpuFallback;
use crate::policy::SchedulerConfig;
use crate::policy::SlicePolicy;
use crate::queue::TaskQueue;
use crate::task::CpuRequest;
use crate::task::CpuSelection;
use crate::task::DispatchedTask;
use crate::task::QueuedTask;
use crate::task::CPU_ANY_FLAG;
use vstd::prelude::*;

verus! {

/// Outcome of one scheduling step.
#[derive(Clone, Copy, PartialEq, Eq, Structural, Debug)]
pub enum Decision {
    /// Submit this placement to the engine.
    Dispatch(DispatchedTask),
    /// Congestion backpressure: stop dispatching for this pass and leave
    /// the remainder of the queue, head task included, for the next cycle.
    Stop,
}

/// The identifiers of a task sequence, in order.
pub open spec fn pids_of(q: Seq<QueuedTask>) -> Seq<i32> {
    q.map_values(|t: QueuedTask| t.pid)
}

/// Whether a congested selection stops the pass under this fallback.
pub open spec fn spec_stops(sel: CpuSelection, fallback: CpuFallback) -> bool {
    sel is Busy && fallback is Backpressure
}

/// The target CPU of a decision: the idle CPU the engine offered, or the
/// task's previous CPU when none was idle.
pub open spec fn spec_target_cpu(task: QueuedTask, sel: CpuSelection) -> i32 {
    match sel {
        CpuSelection::Idle(c) => c,
        CpuSelection::Busy => task.cpu,
    }
}

/// The dispatch flags of a decision: the any-CPU flag exactly when no CPU
/// was idle and the fallback lets the engine pick.
pub open spec fn spec_dispatch_flags(sel: CpuSelection, fallback: CpuFallback) -> u64 {
    if sel is Busy && fallback is AnyCpu {
        CPU_ANY_FLAG
    } else {
        0
    }
}

/// The time budget of a decision under this configuration and batch size.
pub open spec fn spec_slice(config: SchedulerConfig, batch_size: u64) -> u64 {
    match config.slice_policy {
        SlicePolicy::Fixed => config.slice_ns,
        SlicePolicy::FairDivision => spec_fair_slice(config.slice_ns, batch_size),
        SlicePolicy::Deadline => spec_fair_slice(config.slice_ns, batch_size),
    }
}

/// The virtual time of a decision: under the deadline policy, now plus the
/// weighted runtime delta read against the ledger; otherwise unused.
pub open spec fn spec_vtime(
    config: SchedulerConfig,
    task: QueuedTask,
    ledger: Map<i32, u64>,
    now: u64,
) -> u64 {
    match config.slice_policy {
        SlicePolicy::Deadline => spec_deadline(
            now,
            spec_clipped_delta(
                spec_last_runtime(ledger, task.pid),
                task.sum_exec_runtime,
                config.slice_ns,
            ),
            task.weight,
        ),
        _ => 0,
    }
}

/// The full placement decision for one task.
pub open spec fn spec_decision_task(
    config: SchedulerConfig,
    task: QueuedTask,
    sel: CpuSelection,
    ledger: Map<i32, u64>,
    batch_size: u64,
    now: u64,
) -> DispatchedTask {
    DispatchedTask {
        pid: task.pid,
        cpu: spec_target_cpu(task, sel),
        flags: spec_dispatch_flags(sel, config.cpu_fallback),
        slice_ns: spec_slice(config, batch_size),
        vtime: spec_vtime(config, task, ledger, now),
    }
}

/// One scheduler instance: the policy configuration, the FIFO queue of
/// ready tasks, the runtime ledger of the deadline policy, and the batch
/// size snapshot taken at the start of the current dispatch pass.
///
/// The ghost history fields record every arrival and every dispatch, in
/// order, so that FIFO preservation is a stated invariant rather than a
/// property of one call.
pub struct Scheduler {
    /// Per-deployment policy choices.
    pub config: SchedulerConfig,
    /// Tasks that announced readiness and await a decision.
    pub queue: TaskQueue,
    /// Last observed cumulative runtimes, for the deadline policy.
    pub ledger: RuntimeLedger,
    /// Number of tasks that were pending when the current pass began.
    pub batch_size: u64,
    /// Every task identifier ever enqueued, in arrival order.
    pub arrived: Ghost<Seq<i32>>,
    /// Every task identifier ever dispatched, in submission order.
    pub dispatched: Ghost<Seq<i32>>,
}

impl Scheduler {
    /// The state invariant: the budget is positive, queued tasks carry
    /// non-negative previous CPUs, and the dispatched identifiers followed
    /// by the still-queued ones are exactly the arrivals in order.
    pub open spec fn wf(&self) -> bool {
        &&& self.config.wf()
        &&& self.dispatched@ + pids_of(self.queue@) == self.arrived@
        &&& forall|i: int|
            0 <= i < self.queue@.len() ==> (#[trigger] self.queue@[i]).cpu >= 0
    }

    /// A fresh instance: empty queue, empty ledger, empty history.
    pub fn new(config: SchedulerConfig) -> (s: Scheduler)
        requires
            config.wf(),
        ensures
            s.wf(),
            s.config == config,
            s.queue@ == Seq::<QueuedTask>::empty(),
            s.ledger@ == Map::<i32, u64>::empty(),
            s.batch_size == 0,
            s.arrived@ == Seq::<i32>::empty(),
            s.dispatched@ == Seq::<i32>::empty(),
    {
        let s = Scheduler {
            config,
            queue: TaskQueue::new(),
            ledger: RuntimeLedger::new(),
            batch_size: 0,
            arrived: Ghost(Seq::empty()),
            dispatched: Ghost(Seq::empty()),
        };
        proof {
            assert(s.dispatched@ + pids_of(s.queue@) =~= s.arrived@);
        }
        s
    }

    /// Intake: append one ready task in arrival order.  The engine reports
    /// a previously used CPU, which is never negative.
    pub fn enqueue_ready(&mut self, task: QueuedTask)
        requires
            old(self).wf(),
            task.cpu >= 0,
        ensures
            final(self).wf(),
            final(self).queue@ == old(self).queue@.push(task),
            final(self).arrived@ == old(self).arrived@.push(task.pid),
            final(self).config == old(self).config,
            final(self).ledger@ == old(self).ledger@,
            final(self).batch_size == old(self).batch_size,
            final(self).dispatched@ == old(self).dispatched@,
    {
        self.queue.enqueue(task);
        self.arrived = Ghost(self.arrived@.push(task.pid));
        proof {
            assert(pids_of(self.queue@) =~= pids_of(old(self).queue@).push(task.pid));
            assert(self.dispatched@ + pids_of(self.queue@) =~= self.arrived@);
        }
    }

    /// Start a dispatch pass: snapshot the number of tasks pending now, the
    /// batch size that fair division divides by.
    pub fn begin_pass(&mut self)
        requires
            old(self).wf(),
        ensures
            final(self).wf(),
            final(self).batch_size == old(self).queue@.len(),
            final(self).config == old(self).config,
            final(self).queue@ == old(self).queue@,
            final(self).ledger@ == old(self).ledger@,
            final(self).arrived@ == old(self).arrived@,
            final(self).dispatched@ == old(self).dispatched@,
    {
        self.batch_size = self.queue.len() as u64;
    }

    /// The CPU-selection query for the task at the head of the queue, or
    /// nothing when the pass is over because the queue drained.
    pub fn next_request(&self) -> (r: Option<CpuRequest>)
        ensures
            self.queue@.len() == 0 ==> r is None,
            self.queue@.len() > 0 ==> r == Some(
                CpuRequest {
                    pid: self.queue@[0].pid,
                    prev_cpu: self.queue@[0].cpu,
                    flags: self.queue@[0].flags,
                },
            ),
    {
        if self.queue.is_empty() {
            None
        } else {
            let task = self.queue.front();
            Some(CpuRequest { pid: task.pid, prev_cpu: task.cpu, flags: task.flags })
        }
    }

    /// Decide the task at the head of the queue, given the engine's answer
    /// to its CPU-selection query and the current time.
    ///
    /// Under the backpressure fallback a congested answer stops the pass
    /// and leaves the queue untouched.  Otherwise the head task leaves the
    /// queue and a placement for it is produced: the offered idle CPU or
    /// the fallback target, the slice the policy assigns for the batch size
    /// snapshot, and, under the deadline policy, the virtual deadline with
    /// the ledger advanced to the task's new cumulative runtime.
    pub fn schedule(&mut self, sel: CpuSelection, now: u64) -> (d: Decision)
        requires
            old(self).wf(),
            old(self).queue@.len() > 0,
            sel.wf(),
        ensures
            final(self).wf(),
            final(self).config == old(self).config,
            final(self).batch_size == old(self).batch_size,
            final(self).arrived@ == old(self).arrived@,
            spec_stops(sel, old(self).config.cpu_fallback) ==> {
                &&& d == Decision::Stop
                &&& final(self).queue@ == old(self).queue@
                &&& final(self).ledger@ == old(self).ledger@
                &&& final(self).dispatched@ == old(self).dispatched@
            },
            !spec_stops(sel, old(self).config.cpu_fallback) ==> {
                &&& d == Decision::Dispatch(
                    spec_decision_task(
                        old(self).config,
                        old(self).queue@[0],
                        sel,
                        old(self).ledger@,
                        old(self).batch_size,
                        now,
                    ),
                )
                &&& final(self).queue@ == old(self).queue@.drop_first()
                &&& final(self).dispatched@ == old(self).dispatched@.push(old(self).queue@[0].pid)
                &&& final(self).ledger@ == if old(self).config.slice_policy is Deadline {
                    old(self).ledger@.insert(
                        old(self).queue@[0].pid,
                        old(self).queue@[0].sum_exec_runtime,
                    )
                } else {
                    old(self).ledger@
                }
            },
            d matches Decision::Dispatch(t) ==> t.cpu >= 0 && t.pid == old(self).queue@[0].pid,
    {
        let stop: bool = match (sel, self.config.cpu_fallback) {
            (CpuSelection::Busy, CpuFallback::Backpressure) => true,
            _ => false,
        };
        if stop {
            return Decision::Stop;
        }
        let task = self.queue.dequeue_front();
        let cpu: i32 = match sel {
            CpuSelection::Idle(c) => c,
            CpuSelection::Busy => task.cpu,
        };
        let flags: u64 = match (sel, self.config.cpu_fallback) {
            (CpuSelection::Busy, CpuFallback::AnyCpu) => CPU_ANY_FLAG,
            _ => 0,
        };
        let slice_ns: u64 = match self.config.slice_policy {
            SlicePolicy::Fixed => self.config.slice_ns,
            SlicePolicy::FairDivision => fair_slice(self.config.slice_ns, self.batch_size),
            SlicePolicy::Deadline => fair_slice(self.config.slice_ns, self.batch_size),
        };
        let vtime: u64 = match self.config.slice_policy {
            SlicePolicy::Deadline => {
                let delta: u64 = self.ledger.observe(
                    task.pid,
                    task.sum_exec_runtime,
                    self.config.slice_ns,
                );
                deadline_vtime(now, delta, task.weight)
            },
            _ => 0,
        };
        self.dispatched = Ghost(self.dispatched@.push(task.pid));
        proof {
            assert(pids_of(self.queue@) =~= pids_of(old(self).queue@).drop_first());
            assert(pids_of(old(self).queue@)[0] == task.pid);
            assert(self.dispatched@ + pids_of(self.queue@) =~= old(self).dispatched@ + pids_of(
                old(self).queue@,
            ));
        }
        Decision::Dispatch(DispatchedTask { pid: task.pid, cpu, flags, slice_ns, vtime })
    }

    /// The number of tasks still pending after the current dispatch pass:
    /// zero when the queue drained fully, the remaining queue length when a
    /// congestion stop occurred.  This is the value the engine's completion
    /// notification must receive.
    pub fn pending_count(&self) -> (n: u64)
        ensures
            n == self.queue@.len(),
    {
        self.queue.len() as u64
    }

    /// The current timestamp in whole seconds since the Unix epoch.
    pub fn now() -> u64 {
        let t = system_time_now();
        secs_since_unix_epoch(&t)
    }
}

/// Law (FIFO invariant): in every well-formed scheduler state, whatever the
/// interleaving of arrivals and decisions that produced it, the dispatched
/// identifiers are exactly the earliest arrivals in arrival order — the
/// submission sequence preserves intake order.
pub proof fn lemma_fifo_prefix(s: &Scheduler)
    requires
        s.wf(),
    ensures
        s.dispatched@ == s.arrived@.take(s.dispatched@.len() as int),
{
    assert(s.dispatched@ =~= s.arrived@.take(s.dispatched@.len() as int));
}

} // verus!
