//! An executor that keeps tasks in a first-in first-out queue and polls
//! them in turn until every task has completed.

use vstd::prelude::*;

use std::collections::VecDeque;

use super::Task;

verus! {

/// The simple executor: new tasks go to the back of the queue, the task
/// polled next comes from the front, and a task that is not finished
/// goes back to the end of the queue.
pub struct SimpleExecutor<F> {
    task_queue: VecDeque<Task<F>>,
}

impl<F> View for SimpleExecutor<F> {
    type V = Seq<Task<F>>;

    closed spec fn view(&self) -> Seq<Task<F>> {
        self.task_queue@
    }
}

/// The queue after the task at its front has been polled without finishing:
/// that task moves from the front to the back.
pub open spec fn requeued<T>(queue: Seq<T>) -> Seq<T> {
    queue.drop_first().push(queue[0])
}

/// The queue after `k` tasks in a row have been polled without finishing.
pub open spec fn requeued_times<T>(queue: Seq<T>, k: nat) -> Seq<T>
    decreases k,
{
    if k == 0 {
        queue
    } else {
        requeued(requeued_times(queue, (k - 1) as nat))
    }
}

impl<F> SimpleExecutor<F> {
    /// An executor with no task.
    pub fn new() -> (r: SimpleExecutor<F>)
        ensures
            r@ == Seq::<Task<F>>::empty(),
    {
        SimpleExecutor { task_queue: VecDeque::new() }
    }

    /// Adds a task at the back of the queue.
    pub fn spawn(&mut self, task: Task<F>)
        ensures
            final(self)@ == old(self)@.push(task),
    {
        self.task_queue.push_back(task)
    }

    /// Takes the task to poll next from the front of the queue; `None` once
    /// every task has completed, which is when running ends.
    pub fn next_task(&mut self) -> (r: Option<Task<F>>)
        ensures
            old(self)@.len() == 0 ==> r is None && final(self)@ == old(self)@,
            old(self)@.len() > 0 ==> r == Some(old(self)@[0]) && final(self)@ == old(self)@.drop_first(),
    {
        let r = self.task_queue.pop_front();
        proof {
            if old(self)@.len() > 0 {
                assert(old(self)@.subrange(1, old(self)@.len() as int) =~= old(self)@.drop_first());
            }
        }
        r
    }

    /// Settles a task that `next_task` handed out and that has just been
    /// polled: a finished task is dropped, a pending one goes back to the
    /// end of the queue.
    pub fn complete_poll(&mut self, task: Task<F>, finished: bool)
        ensures
            finished ==> final(self)@ == old(self)@,
            !finished ==> final(self)@ == old(self)@.push(task),
    {
        if !finished {
            self.task_queue.push_back(task);
        }
    }
}

/// The queue after `k` pending tasks were put back is the queue rotated by `k`.
pub proof fn lemma_requeued_times<T>(queue: Seq<T>, k: nat)
    requires
        k <= queue.len(),
    ensures
        requeued_times(queue, k) == queue.skip(k as int) + queue.take(k as int),
    decreases k,
{
    if k > 0 {
        lemma_requeued_times(queue, (k - 1) as nat);
        let prev = requeued_times(queue, (k - 1) as nat);
        assert(prev[0] == queue[k - 1]);
        assert(requeued(prev) =~= queue.skip(k as int) + queue.take(k as int));
    } else {
        assert(queue.skip(0) + queue.take(0) =~= queue);
    }
}

/// Round-robin fairness: while tasks stay pending, the `k`-th task polled
/// (counting from zero) is the `k`-th of the queue, so every queued task is
/// polled once before any is polled twice; and once each has been polled
/// the queue is back in its first order.
pub proof fn lemma_round_robin<T>(queue: Seq<T>)
    ensures
        forall|k: nat| k < queue.len() ==> #[trigger] requeued_times(queue, k)[0] == queue[k as int],
        requeued_times(queue, queue.len()) == queue,
{
    assert forall|k: nat| k < queue.len() implies #[trigger] requeued_times(queue, k)[0] == queue[k as int] by {
        lemma_requeued_times(queue, k);
        assert((queue.skip(k as int) + queue.take(k as int))[0] == queue[k as int]);
    }
    lemma_requeued_times(queue, queue.len());
    assert(queue.skip(queue.len() as int) + queue.take(queue.len() as int) =~= queue);
}

} // verus!
