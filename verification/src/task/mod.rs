//! Cooperative multitasking: tasks wrapping futures, and the executors
//! that poll them.

pub mod executor;
pub mod key_decoder;
pub mod keyboard;
pub mod queue;
pub mod simple_executor;

use vstd::prelude::*;

verus! {

/// A task: a future to be polled until it completes.  The future itself
/// is polled by the caller; the executors only decide which task runs next.
pub struct Task<F> {
    future: F,
}

impl<F> Task<F> {
    /// The future the task drives.
    pub closed spec fn future(self) -> F {
        self.future
    }

    /// Wraps a (pinned) future into a task.
    pub fn new(future: F) -> (r: Task<F>)
        ensures
            r.future() == future,
    {
        Task { future }
    }

    /// The future of the task, to be polled.
    pub fn future_mut(&mut self) -> (r: &mut F)
        ensures
            *r == old(self).future(),
            final(self).future() == *final(r),
    {
        &mut self.future
    }
}

} // verus!
