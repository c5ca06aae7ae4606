use vstd::prelude::*;

verus! {

/// How a supervised task ended.
#[derive(Debug, Clone, Copy, PartialEq, Eq, Structural)]
pub enum TaskOutcome {
    /// It returned `Ok`.
    Success,
    /// It returned an error.
    Failed,
    /// It panicked or was aborted.
    Panicked,
}

/// The shared cancellation state of the supervised tasks: a single token
/// that any task's end cancels, and the count of tasks that ended.
pub struct Supervisor {
    cancelled: bool,
    completed: u64,
}

impl Supervisor {
    pub closed spec fn is_cancelled(&self) -> bool {
        self.cancelled
    }

    pub closed spec fn spec_completed(&self) -> u64 {
        self.completed
    }

    pub fn new() -> (r: Self)
        ensures
            !r.is_cancelled(),
            r.spec_completed() == 0,
    {
        Supervisor { cancelled: false, completed: 0 }
    }

    /// Cancels the token from outside any task (a signal or a timeout).
    pub fn cancel(&mut self)
        ensures
            final(self).is_cancelled(),
            final(self).spec_completed() == old(self).spec_completed(),
    {
        self.cancelled = true;
    }

    /// A supervised task ended: whatever the outcome, the token is cancelled
    /// so that every other task winds down. Returns whether the token was
    /// cancelled by this call.
    pub fn on_task_completed(&mut self, outcome: TaskOutcome) -> (r: bool)
        ensures
            final(self).is_cancelled(),
            r == !old(self).is_cancelled(),
            final(self).spec_completed() == if old(self).spec_completed() < u64::MAX {
                (old(self).spec_completed() + 1) as u64
            } else {
                u64::MAX
            },
    {
        let first = !self.cancelled;
        self.cancelled = true;
        if self.completed < u64::MAX {
            self.completed = self.completed + 1;
        }
        first
    }

    /// Whether the token is cancelled.
    pub fn cancelled(&self) -> (r: bool)
        ensures
            r == self.is_cancelled(),
    {
        self.cancelled
    }

    /// Number of supervised tasks that ended.
    pub fn completed(&self) -> (r: u64)
        ensures
            r == self.spec_completed(),
    {
        self.completed
    }
}

} // verus!
