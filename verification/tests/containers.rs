use scx_policy::ledger::RuntimeLedger;
use scx_policy::queue::TaskQueue;
use scx_policy::task::QueuedTask;

fn task(pid: i32) -> QueuedTask {
    QueuedTask {
        pid,
        cpu: 0,
        flags: 0,
        sum_exec_runtime: 0,
        weight: 100,
        nvcsw: 0,
        slice: 0,
        vtime: 0,
    }
}

#[test]
fn queue_preserves_arrival_order() {
    let mut q = TaskQueue::new();
    assert!(q.is_empty());
    q.enqueue(task(1));
    q.enqueue(task(2));
    q.enqueue(task(3));
    assert_eq!(q.len(), 3);
    assert_eq!(q.front().pid, 1);
    assert_eq!(q.dequeue().map(|t| t.pid), Some(1));
    assert_eq!(q.dequeue().map(|t| t.pid), Some(2));
    assert_eq!(q.dequeue().map(|t| t.pid), Some(3));
    assert!(q.dequeue().is_none());
}

#[test]
fn ledger_first_observation_counts_everything() {
    let mut l = RuntimeLedger::new();
    assert_eq!(l.last_runtime(7), 0);
    assert_eq!(l.observe(7, 1_000, 5_000_000), 1_000);
}

#[test]
fn ledger_later_observations_yield_the_increment() {
    let mut l = RuntimeLedger::new();
    l.record(7, 1_000);
    assert_eq!(l.last_runtime(7), 1_000);
    assert_eq!(l.observe(7, 4_000, 5_000_000), 3_000);
    assert_eq!(l.last_runtime(7), 4_000);
}

#[test]
fn ledger_observation_is_clipped() {
    let mut l = RuntimeLedger::new();
    assert_eq!(l.observe(9, 20_000_000, 5_000_000), 5_000_000);
    // The ledger still remembers the full cumulative value.
    assert_eq!(l.last_runtime(9), 20_000_000);
}

#[test]
fn ledger_tracks_tasks_independently() {
    let mut l = RuntimeLedger::new();
    l.record(1, 100);
    l.record(2, 200);
    assert_eq!(l.last_runtime(1), 100);
    assert_eq!(l.last_runtime(2), 200);
    assert_eq!(l.last_runtime(3), 0);
}
