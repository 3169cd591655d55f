//! A user-space scheduling policy layer for an external kernel task-dispatch
//! engine.
//!
//! The engine surfaces tasks that want to run, answers CPU-selection queries,
//! accepts placement decisions, and blocks the caller until new work exists.
//! This crate holds the policy side of that protocol: a FIFO task queue, a
//! per-task runtime ledger, the slice and virtual-deadline arithmetic, the
//! per-task dispatch decision, and the process lifecycle state machine.  The
//! engine itself (task interception, preemption, placement) is an external
//! collaborator and is driven by an unverified outer loop.

pub mod clock;
pub mod ledger;
pub mod lifecycle;
pub mod policy;
pub mod queue;
pub mod scheduler;
pub mod stats;
pub mod task;
