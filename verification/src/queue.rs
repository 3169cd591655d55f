use crate::task::QueuedTask;
use vstd::prelude::*;

verus! {

/// The ordered buffer of tasks that announced readiness but have not been
/// placed yet.  Insertion order is arrival order, and elements leave from
/// the front, so FIFO order is preserved end-to-end.
///
/// The engine never re-enqueues a task that is still pending a decision, so
/// a task appears at most once in the queue at any time.
pub struct TaskQueue {
    items: Vec<QueuedTask>,
}

impl View for TaskQueue {
    type V = Seq<QueuedTask>;

    closed spec fn view(&self) -> Seq<QueuedTask> {
        self.items@
    }
}

impl TaskQueue {
    /// An empty queue.
    pub fn new() -> (q: TaskQueue)
        ensures
            q@ == Seq::<QueuedTask>::empty(),
    {
        TaskQueue { items: Vec::new() }
    }

    /// Number of tasks waiting.
    pub fn len(&self) -> (n: usize)
        ensures
            n == self@.len(),
    {
        self.items.len()
    }

    /// Whether no task is waiting.
    pub fn is_empty(&self) -> (e: bool)
        ensures
            e == (self@.len() == 0),
    {
        self.items.len() == 0
    }

    /// Append a task at the tail, keeping arrival order.
    pub fn enqueue(&mut self, task: QueuedTask)
        ensures
            final(self)@ == old(self)@.push(task),
    {
        self.items.push(task);
    }

    /// Remove and return the oldest task, or report the queue empty.
    pub fn dequeue(&mut self) -> (t: Option<QueuedTask>)
        ensures
            old(self)@.len() == 0 ==> t is None && final(self)@ == old(self)@,
            old(self)@.len() > 0 ==> t == Some(old(self)@[0]) && final(self)@ == old(
                self,
            )@.drop_first(),
    {
        if self.items.len() == 0 {
            None
        } else {
            let task = self.items.remove(0);
            proof {
                assert(self.items@ =~= old(self)@.drop_first());
            }
            Some(task)
        }
    }

    /// Remove and return the oldest task of a queue known to be non-empty.
    pub fn dequeue_front(&mut self) -> (t: QueuedTask)
        requires
            old(self)@.len() > 0,
        ensures
            t == old(self)@[0],
            final(self)@ == old(self)@.drop_first(),
    {
        let task = self.items.remove(0);
        proof {
            assert(self.items@ =~= old(self)@.drop_first());
        }
        task
    }

    /// The oldest task, left in place.
    pub fn front(&self) -> (t: QueuedTask)
        requires
            self@.len() > 0,
        ensures
            t == self@[0],
    {
        self.items[0]
    }
}

} // verus!
