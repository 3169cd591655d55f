use scx_policy::policy::CpuFallback;
use scx_policy::policy::SchedulerConfig;
use scx_policy::policy::SlicePolicy;
use scx_policy::scheduler::Decision;
use scx_policy::scheduler::Scheduler;
use scx_policy::task::CpuSelection;
use scx_policy::task::DispatchedTask;
use scx_policy::task::QueuedTask;

fn task(pid: i32, cpu: i32, runtime: u64, weight: u64) -> QueuedTask {
    QueuedTask {
        pid,
        cpu,
        flags: 0,
        sum_exec_runtime: runtime,
        weight,
        nvcsw: 0,
        slice: 0,
        vtime: 0,
    }
}

fn config(slice_policy: SlicePolicy, cpu_fallback: CpuFallback) -> SchedulerConfig {
    SchedulerConfig {
        slice_policy,
        cpu_fallback,
        slice_ns: 5_000_000,
    }
}

#[test]
fn fair_division_three_tasks_in_order() {
    // Three tasks with weight 100 and zero prior runtime arrive as A, B, C;
    // fair division of a 5,000,000 ns budget over a batch of three gives
    // each 5,000,000 / 4 = 1,250,000 ns, submitted in arrival order.
    let mut s = Scheduler::new(config(SlicePolicy::FairDivision, CpuFallback::AnyCpu));
    s.enqueue_ready(task(1, 0, 0, 100));
    s.enqueue_ready(task(2, 1, 0, 100));
    s.enqueue_ready(task(3, 2, 0, 100));
    s.begin_pass();
    let mut submitted = Vec::new();
    while let Some(req) = s.next_request() {
        match s.schedule(CpuSelection::Idle(req.prev_cpu), 0) {
            Decision::Dispatch(d) => submitted.push(d),
            Decision::Stop => break,
        }
    }
    assert_eq!(submitted.len(), 3);
    assert_eq!(
        submitted.iter().map(|d| d.pid).collect::<Vec<i32>>(),
        vec![1, 2, 3]
    );
    for d in &submitted {
        assert_eq!(d.slice_ns, 1_250_000);
        assert_eq!(d.vtime, 0);
    }
    assert_eq!(s.pending_count(), 0);
}

#[test]
fn idle_cpu_is_taken() {
    let mut s = Scheduler::new(config(SlicePolicy::Fixed, CpuFallback::Sticky));
    s.enqueue_ready(task(10, 2, 0, 100));
    s.begin_pass();
    let d = s.schedule(CpuSelection::Idle(6), 0);
    assert_eq!(
        d,
        Decision::Dispatch(DispatchedTask {
            pid: 10,
            cpu: 6,
            flags: 0,
            slice_ns: 5_000_000,
            vtime: 0,
        })
    );
}

#[test]
fn any_cpu_fallback_sets_flag() {
    let mut s = Scheduler::new(config(SlicePolicy::Fixed, CpuFallback::AnyCpu));
    s.enqueue_ready(task(11, 3, 0, 100));
    s.begin_pass();
    match s.schedule(CpuSelection::Busy, 0) {
        Decision::Dispatch(d) => {
            assert_eq!(d.flags, scx_policy::task::CPU_ANY_FLAG);
            assert!(d.cpu >= 0);
        }
        Decision::Stop => panic!("any-CPU fallback must dispatch"),
    }
}

#[test]
fn sticky_fallback_keeps_previous_cpu() {
    let mut s = Scheduler::new(config(SlicePolicy::Fixed, CpuFallback::Sticky));
    s.enqueue_ready(task(12, 4, 0, 100));
    s.begin_pass();
    match s.schedule(CpuSelection::Busy, 0) {
        Decision::Dispatch(d) => {
            assert_eq!(d.cpu, 4);
            assert_eq!(d.flags, 0);
        }
        Decision::Stop => panic!("sticky fallback must dispatch"),
    }
}

#[test]
fn backpressure_stops_the_batch() {
    let mut s = Scheduler::new(config(SlicePolicy::Fixed, CpuFallback::Backpressure));
    s.enqueue_ready(task(20, 0, 0, 100));
    s.enqueue_ready(task(21, 1, 0, 100));
    s.enqueue_ready(task(22, 2, 0, 100));
    s.begin_pass();
    match s.schedule(CpuSelection::Idle(0), 0) {
        Decision::Dispatch(d) => assert_eq!(d.pid, 20),
        Decision::Stop => panic!("an idle CPU must dispatch"),
    }
    // No idle CPU: the pass stops and both remaining tasks stay queued,
    // head task included.
    assert_eq!(s.schedule(CpuSelection::Busy, 0), Decision::Stop);
    assert_eq!(s.pending_count(), 2);
    assert_eq!(s.next_request().map(|r| r.pid), Some(21));
}

#[test]
fn fixed_slice_ignores_batch_size() {
    let mut s = Scheduler::new(config(SlicePolicy::Fixed, CpuFallback::AnyCpu));
    for pid in 0..8 {
        s.enqueue_ready(task(pid, 0, 0, 100));
    }
    s.begin_pass();
    match s.schedule(CpuSelection::Idle(1), 0) {
        Decision::Dispatch(d) => assert_eq!(d.slice_ns, 5_000_000),
        Decision::Stop => panic!("fixed policy must dispatch"),
    }
}

#[test]
fn deadline_first_observation_counts_full_runtime() {
    let mut s = Scheduler::new(config(SlicePolicy::Deadline, CpuFallback::AnyCpu));
    s.enqueue_ready(task(30, 0, 3_000_000, 100));
    s.begin_pass();
    match s.schedule(CpuSelection::Idle(0), 1_000) {
        Decision::Dispatch(d) => {
            // First observation: the whole cumulative runtime is the delta,
            // and weight 100 leaves the increment unscaled.
            assert_eq!(d.vtime, 1_000 + 3_000_000);
            // The nominal slice still uses fair division: 5,000,000 / 2.
            assert_eq!(d.slice_ns, 2_500_000);
        }
        Decision::Stop => panic!("deadline policy must dispatch"),
    }
}

#[test]
fn deadline_delta_is_clipped_to_the_budget() {
    let mut s = Scheduler::new(config(SlicePolicy::Deadline, CpuFallback::AnyCpu));
    s.enqueue_ready(task(31, 0, 20_000_000, 100));
    s.begin_pass();
    match s.schedule(CpuSelection::Idle(0), 500) {
        Decision::Dispatch(d) => assert_eq!(d.vtime, 500 + 5_000_000),
        Decision::Stop => panic!("deadline policy must dispatch"),
    }
}

#[test]
fn deadline_second_observation_uses_increment() {
    let mut s = Scheduler::new(config(SlicePolicy::Deadline, CpuFallback::AnyCpu));
    s.enqueue_ready(task(32, 0, 1_000_000, 100));
    s.begin_pass();
    let first = s.schedule(CpuSelection::Idle(0), 0);
    match first {
        Decision::Dispatch(d) => assert_eq!(d.vtime, 1_000_000),
        Decision::Stop => panic!("deadline policy must dispatch"),
    }
    // The same task returns with 500,000 ns more cumulative runtime.
    s.enqueue_ready(task(32, 0, 1_500_000, 100));
    s.begin_pass();
    match s.schedule(CpuSelection::Idle(0), 2_000_000) {
        Decision::Dispatch(d) => assert_eq!(d.vtime, 2_000_000 + 500_000),
        Decision::Stop => panic!("deadline policy must dispatch"),
    }
}

#[test]
fn deadline_weight_zero_is_clamped_to_one() {
    let mut s = Scheduler::new(config(SlicePolicy::Deadline, CpuFallback::AnyCpu));
    s.enqueue_ready(task(33, 0, 1_000, 0));
    s.begin_pass();
    match s.schedule(CpuSelection::Idle(0), 0) {
        Decision::Dispatch(d) => assert_eq!(d.vtime, 1_000 * 100),
        Decision::Stop => panic!("deadline policy must dispatch"),
    }
}

#[test]
fn deadline_high_weight_shrinks_increment() {
    let mut s = Scheduler::new(config(SlicePolicy::Deadline, CpuFallback::AnyCpu));
    s.enqueue_ready(task(34, 0, 1_000, 200));
    s.begin_pass();
    match s.schedule(CpuSelection::Idle(0), 0) {
        Decision::Dispatch(d) => assert_eq!(d.vtime, 500),
        Decision::Stop => panic!("deadline policy must dispatch"),
    }
}

#[test]
fn next_request_reports_head_task() {
    let mut s = Scheduler::new(config(SlicePolicy::FairDivision, CpuFallback::AnyCpu));
    assert!(s.next_request().is_none());
    let mut t = task(40, 7, 0, 100);
    t.flags = 9;
    s.enqueue_ready(t);
    let req = s.next_request().expect("one task is queued");
    assert_eq!(req.pid, 40);
    assert_eq!(req.prev_cpu, 7);
    assert_eq!(req.flags, 9);
}

#[test]
fn pending_count_tracks_queue_length() {
    let mut s = Scheduler::new(config(SlicePolicy::FairDivision, CpuFallback::AnyCpu));
    assert_eq!(s.pending_count(), 0);
    s.enqueue_ready(task(50, 0, 0, 100));
    s.enqueue_ready(task(51, 0, 0, 100));
    assert_eq!(s.pending_count(), 2);
    s.begin_pass();
    let _ = s.schedule(CpuSelection::Idle(0), 0);
    assert_eq!(s.pending_count(), 1);
}

#[test]
fn clock_reads_after_the_epoch() {
    assert!(Scheduler::now() > 0);
}
