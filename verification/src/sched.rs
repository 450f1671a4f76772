//! The scheduler capability: accepting a woken task for eventual execution.

use vstd::prelude::*;

verus! {

/// A type-erased, non-owning handle to a task: the unit a scheduler accepts
/// and the executor later polls. It carries no type information and does not
/// itself manage the reference count; whoever creates or consumes a handle
/// accounts for references explicitly.
#[derive(Clone, Copy, Debug, PartialEq, Eq, Structural)]
pub struct Task;

/// The single capability every scheduler must provide: accept a schedulable
/// unit for eventual execution. Acceptance is only recorded; nothing is
/// promised about when the task next runs.
pub trait Schedule: Sized {
    /// How many schedulable units this scheduler has accepted so far.
    spec fn accepted(&self) -> nat;

    /// Accepts a woken task for eventual execution. Must not block: it is
    /// invoked from within the wake path.
    fn schedule(&mut self, task: Task)
        ensures
            final(self).accepted() == old(self).accepted() + 1,
    ;
}

/// A scheduler that records acceptance and drops the handle: for tasks that
/// are never woken, or for tests that only count scheduling requests.
pub struct NoopScheduler {
    /// Number of acceptances, kept only for the specification.
    pub count: Ghost<nat>,
}

impl NoopScheduler {
    /// A scheduler that has accepted nothing yet.
    pub fn new() -> (s: NoopScheduler)
        ensures
            s.accepted() == 0,
    {
        NoopScheduler { count: Ghost(0) }
    }
}

impl Schedule for NoopScheduler {
    open spec fn accepted(&self) -> nat {
        self.count@
    }

    fn schedule(&mut self, task: Task) {
        self.count = Ghost(self.count@ + 1);
    }
}

/// A scheduler that keeps every accepted unit in a queue, in arrival order.
pub struct QueueScheduler {
    /// The accepted units, oldest first.
    pub queue: Vec<Task>,
}

impl QueueScheduler {
    /// A scheduler with an empty queue.
    pub fn new() -> (s: QueueScheduler)
        ensures
            s.accepted() == 0,
            s.queue@.len() == 0,
    {
        QueueScheduler { queue: Vec::new() }
    }

    /// Number of units currently queued.
    pub fn len(&self) -> (n: usize)
        ensures
            n == self.queue@.len(),
    {
        self.queue.len()
    }
}

impl Schedule for QueueScheduler {
    open spec fn accepted(&self) -> nat {
        self.queue@.len()
    }

    fn schedule(&mut self, task: Task) {
        self.queue.push(task);
    }
}

} // verus!
