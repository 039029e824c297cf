//! An executor that only polls the tasks that were woken.
//!
//! Tasks are kept by id; the ids of tasks ready to be polled wait in a
//! bounded queue that the tasks' wakers push to, possibly from interrupt
//! handlers.  Each step of running is a decision taken here, while the
//! caller polls the futures and builds the wakers.

use vstd::prelude::*;

use std::collections::BTreeMap;
use std::sync::Arc;

use crossbeam_queue::ArrayQueue;

use super::queue::{id_queue_capacity, id_queue_new, pop, push, queue_is_empty, SharedLog};
use super::Task;

verus! {

/// Number of task ids the ready queue holds at most.
pub const TASK_QUEUE_CAPACITY: usize = 100;

/// The identity of a spawned task.
#[derive(Debug, Clone, Copy, PartialEq, Eq, Structural)]
pub struct TaskId(pub u64);

/// Why spawning a task failed.
#[derive(Debug, Clone, Copy, PartialEq, Eq, Structural)]
pub enum SpawnError {
    /// The task was added but its id did not fit into the ready queue.
    QueueFull(TaskId),
}

/// What the ready queue offered when asked for the next task to poll.
pub enum ReadyTask<F> {
    /// The queue was empty.
    QueueEmpty,
    /// The queue held the id of a task that no longer exists; it was skipped.
    Missing(TaskId),
    /// The task, taken out of the executor, to be polled now.
    Ready(TaskId, Task<F>),
}

/// What a waker of a task holds: the task's id and the ready queue.
pub struct TaskWaker {
    task_id: TaskId,
    task_queue: Arc<ArrayQueue<u64>>,
}

impl TaskWaker {
    /// The task this waker wakes.
    pub closed spec fn task(self) -> TaskId {
        self.task_id
    }

    /// The ready queue this waker pushes to.
    pub closed spec fn queue(self) -> ArrayQueue<u64> {
        *self.task_queue
    }

    /// A waker for the task with the given id that pushes to `task_queue`.
    pub fn new(task_id: TaskId, task_queue: Arc<ArrayQueue<u64>>) -> (r: TaskWaker)
        ensures
            r.task() == task_id,
            r.queue() == *task_queue,
    {
        TaskWaker { task_id, task_queue }
    }

    /// Wakes the task: puts its id into the ready queue.  Fails, handing the
    /// id back, where the queue is full.
    pub fn wake_task(&self) -> (r: Result<(), TaskId>)
        ensures
            r matches Err(id) ==> id == self.task(),
    {
        let mut log = SharedLog::new();
        match push(&*self.task_queue, self.task_id.0, &mut log) {
            Ok(()) => Ok(()),
            Err(_) => Err(self.task_id),
        }
    }
}

/// The executor.  `F` is the type of the tasks' futures and `W` that of
/// their wakers.
pub struct Executor<F, W> {
    tasks: BTreeMap<u64, Task<F>>,
    task_queue: Arc<ArrayQueue<u64>>,
    waker_cache: BTreeMap<u64, W>,
    next_id: u64,
}

impl<F, W> Executor<F, W> {
    /// The tasks by id.
    pub closed spec fn tasks(self) -> Map<u64, Task<F>> {
        self.tasks@
    }

    /// The wakers made so far, by task id.
    pub closed spec fn wakers(self) -> Map<u64, W> {
        self.waker_cache@
    }

    /// The id the next spawned task gets.
    pub closed spec fn next_id(self) -> u64 {
        self.next_id
    }

    /// The ready queue that the tasks' wakers push to.
    pub closed spec fn ready_queue(self) -> ArrayQueue<u64> {
        *self.task_queue
    }

    /// Wakers are kept only for tasks the executor holds.
    pub open spec fn wakers_only_for_tasks(self) -> bool {
        forall|id: u64| #[trigger] self.wakers().contains_key(id) ==> self.tasks().contains_key(id)
    }

    /// Every task has an id below the next one to be given out.
    pub open spec fn ids_fresh(self) -> bool {
        forall|id: u64| #[trigger] self.tasks().contains_key(id) ==> id < self.next_id()
    }

    /// An executor without tasks.
    pub fn new() -> (r: Executor<F, W>)
        ensures
            r.tasks() == Map::<u64, Task<F>>::empty(),
            r.wakers() == Map::<u64, W>::empty(),
            r.next_id() == 0,
            r.ids_fresh(),
            r.wakers_only_for_tasks(),
            id_queue_capacity(r.ready_queue()) == TASK_QUEUE_CAPACITY,
    {
        Executor {
            tasks: BTreeMap::new(),
            task_queue: Arc::new(id_queue_new(TASK_QUEUE_CAPACITY)),
            waker_cache: BTreeMap::new(),
            next_id: 0,
        }
    }

    /// The id the next spawned task gets.
    pub fn next_task_id(&self) -> (r: TaskId)
        ensures
            r == TaskId(self.next_id()),
    {
        TaskId(self.next_id)
    }

    /// Whether the executor holds a task with this id.
    pub fn contains_task(&self, id: TaskId) -> (r: bool)
        ensures
            r == self.tasks().contains_key(id.0),
    {
        self.tasks.contains_key(&id.0)
    }

    /// Gives the task the next id, adds it, and puts its id into the ready
    /// queue so that it is polled once.  Ids are counted up from zero and
    /// wrap around after the largest `u64`.  The next id must not belong to
    /// a task already (spawning then is an error that stops the kernel);
    /// that holds as long as the ids have not wrapped around (`ids_fresh`).
    /// Fails where the ready queue is full, after the task has been added.
    pub fn spawn(&mut self, task: Task<F>) -> (r: Result<TaskId, SpawnError>)
        requires
            !old(self).tasks().contains_key(old(self).next_id()),
        ensures
            final(self).next_id() == (if old(self).next_id() == u64::MAX {
                0
            } else {
                (old(self).next_id() + 1) as u64
            }),
            final(self).wakers() == old(self).wakers(),
            final(self).ready_queue() == old(self).ready_queue(),
            final(self).tasks() == old(self).tasks().insert(old(self).next_id(), task),
            r == Ok::<TaskId, SpawnError>(TaskId(old(self).next_id())) || r == Err::<
                TaskId,
                SpawnError,
            >(SpawnError::QueueFull(TaskId(old(self).next_id()))),
            old(self).ids_fresh() && old(self).next_id() < u64::MAX ==> final(self).ids_fresh(),
            old(self).wakers_only_for_tasks() ==> final(self).wakers_only_for_tasks(),
    {
        let id = self.next_id;
        self.next_id = id.wrapping_add(1);
        self.tasks.insert(id, task);
        proof {
            if old(self).ids_fresh() && id < u64::MAX {
                assert forall|k: u64| #[trigger] self.tasks@.contains_key(k) implies k < self.next_id by {
                    if k != id {
                        assert(old(self).tasks().contains_key(k));
                    }
                }
            }
            if old(self).wakers_only_for_tasks() {
                assert forall|k: u64| #[trigger] self.wakers().contains_key(k) implies self.tasks().contains_key(k) by {
                    assert(old(self).wakers().contains_key(k));
                }
            }
        }
        let mut log = SharedLog::new();
        match push(&*self.task_queue, id, &mut log) {
            Ok(()) => Ok(TaskId(id)),
            Err(_) => Err(SpawnError::QueueFull(TaskId(id))),
        }
    }

    /// Takes the next id out of the ready queue.  A task with that id is
    /// taken out of the executor to be polled; an id without a task (one
    /// that completed meanwhile) is skipped.
    pub fn next_ready_task(&mut self) -> (r: ReadyTask<F>)
        ensures
            final(self).wakers() == old(self).wakers(),
            final(self).ready_queue() == old(self).ready_queue(),
            final(self).next_id() == old(self).next_id(),
            match r {
                ReadyTask::QueueEmpty => final(self).tasks() == old(self).tasks(),
                ReadyTask::Missing(id) => {
                    &&& !old(self).tasks().contains_key(id.0)
                    &&& final(self).tasks() == old(self).tasks()
                },
                ReadyTask::Ready(id, task) => {
                    &&& old(self).tasks().contains_key(id.0)
                    &&& task == old(self).tasks()[id.0]
                    &&& final(self).tasks() == old(self).tasks().remove(id.0)
                },
            },
            old(self).ids_fresh() ==> final(self).ids_fresh(),
    {
        let mut log = SharedLog::new();
        let popped = pop(&*self.task_queue, &mut log);
        self.ready_task_for(popped)
    }

    /// What the ready queue's answer means: `None` (the queue was empty)
    /// gives `QueueEmpty`; an id of a task takes that task out to be
    /// polled; an id without a task is skipped as `Missing`.
    pub fn ready_task_for(&mut self, popped: Option<u64>) -> (r: ReadyTask<F>)
        ensures
            final(self).wakers() == old(self).wakers(),
            final(self).ready_queue() == old(self).ready_queue(),
            final(self).next_id() == old(self).next_id(),
            match popped {
                None => {
                    &&& r is QueueEmpty
                    &&& final(self).tasks() == old(self).tasks()
                },
                Some(id) => if old(self).tasks().contains_key(id) {
                    &&& r == ReadyTask::Ready(TaskId(id), old(self).tasks()[id])
                    &&& final(self).tasks() == old(self).tasks().remove(id)
                } else {
                    &&& r == ReadyTask::<F>::Missing(TaskId(id))
                    &&& final(self).tasks() == old(self).tasks()
                },
            },
            old(self).ids_fresh() ==> final(self).ids_fresh(),
    {
        match popped {
            None => ReadyTask::QueueEmpty,
            Some(id) => match self.tasks.remove(&id) {
                Some(task) => ReadyTask::Ready(TaskId(id), task),
                None => ReadyTask::Missing(TaskId(id)),
            },
        }
    }

    /// The waker made for a task, if one was made already.
    pub fn cached_waker(&self, id: TaskId) -> (r: Option<&W>)
        ensures
            r matches Some(w) ==> self.wakers().contains_key(id.0) && *w == self.wakers()[id.0],
            r is None ==> !self.wakers().contains_key(id.0),
    {
        self.waker_cache.get(&id.0)
    }

    /// Keeps `waker` as the waker of a task unless that task has one already.
    pub fn cache_waker(&mut self, id: TaskId, waker: W)
        ensures
            final(self).tasks() == old(self).tasks(),
            final(self).ready_queue() == old(self).ready_queue(),
            final(self).next_id() == old(self).next_id(),
            final(self).wakers() == (if old(self).wakers().contains_key(id.0) {
                old(self).wakers()
            } else {
                old(self).wakers().insert(id.0, waker)
            }),
    {
        if !self.waker_cache.contains_key(&id.0) {
            self.waker_cache.insert(id.0, waker);
        }
    }

    /// What a new waker for the task with the given id holds.
    pub fn task_waker(&self, id: TaskId) -> (r: TaskWaker)
        ensures
            r.task() == id,
            r.queue() == self.ready_queue(),
    {
        TaskWaker::new(id, self.task_queue.clone())
    }

    /// Settles a task that `next_ready_task` handed out and that has just
    /// been polled.  A finished task is dropped together with its waker; a
    /// pending one goes back under its id until its waker puts the id into
    /// the ready queue again.
    pub fn complete_poll(&mut self, id: TaskId, task: Task<F>, finished: bool)
        ensures
            final(self).next_id() == old(self).next_id(),
            final(self).ready_queue() == old(self).ready_queue(),
            finished ==> {
                &&& final(self).tasks() == old(self).tasks().remove(id.0)
                &&& final(self).wakers() == old(self).wakers().remove(id.0)
            },
            !finished ==> {
                &&& final(self).tasks() == old(self).tasks().insert(id.0, task)
                &&& final(self).wakers() == old(self).wakers()
            },
            old(self).ids_fresh() && id.0 < old(self).next_id() ==> final(self).ids_fresh(),
    {
        if finished {
            self.tasks.remove(&id.0);
            self.waker_cache.remove(&id.0);
        } else {
            self.tasks.insert(id.0, task);
        }
        proof {
            if old(self).ids_fresh() && id.0 < old(self).next_id() {
                assert forall|k: u64| #[trigger] self.tasks().contains_key(k) implies k < self.next_id() by {
                    if k != id.0 {
                        assert(old(self).tasks().contains_key(k));
                    }
                }
            }
        }
    }

    /// Whether the ready queue is empty at the moment of asking; the answer
    /// may be out of date as soon as it is given.
    pub fn queue_is_empty(&self) -> bool {
        queue_is_empty(&*self.task_queue)
    }
}

/// Taking a ready task out (`next_ready_task`) and putting it back as
/// pending (`complete_poll` with `finished == false`) leaves the tasks as
/// they were.
pub proof fn lemma_pending_task_kept<F>(tasks: Map<u64, Task<F>>, id: u64)
    requires
        tasks.contains_key(id),
    ensures
        tasks.remove(id).insert(id, tasks[id]) == tasks,
{
    assert(tasks.remove(id).insert(id, tasks[id]) =~= tasks);
}

/// One round of running a ready task keeps wakers only for held tasks:
/// the task is taken out (`ready_task_for` of its id), a waker is cached
/// for it (`cache_waker`), and after polling it is settled
/// (`complete_poll`): a finished task leaves together with its waker, a
/// pending one comes back.
pub proof fn lemma_round_keeps_wakers_for_tasks<F, W>(
    e0: Executor<F, W>,
    e1: Executor<F, W>,
    e2: Executor<F, W>,
    e3: Executor<F, W>,
    id: u64,
    waker: W,
    task: Task<F>,
    finished: bool,
)
    requires
        e0.wakers_only_for_tasks(),
        e0.tasks().contains_key(id),
        e1.tasks() == e0.tasks().remove(id),
        e1.wakers() == e0.wakers(),
        e2.tasks() == e1.tasks(),
        e2.wakers() == (if e1.wakers().contains_key(id) {
            e1.wakers()
        } else {
            e1.wakers().insert(id, waker)
        }),
        finished ==> e3.tasks() == e2.tasks().remove(id) && e3.wakers() == e2.wakers().remove(id),
        !finished ==> e3.tasks() == e2.tasks().insert(id, task) && e3.wakers() == e2.wakers(),
    ensures
        e3.wakers_only_for_tasks(),
{
    assert forall|k: u64| #[trigger] e3.wakers().contains_key(k) implies e3.tasks().contains_key(k) by {
        if k != id {
            assert(e0.wakers().contains_key(k));
        }
    }
}

/// A finished task is never polled again: once its id is gone from the
/// tasks, one round of running whatever the ready queue offers (taking a
/// task out, caching a waker, settling the task taken out) leaves it gone,
/// so a later answer of the queue with that id gives `Missing`.
pub proof fn lemma_finished_task_stays_gone_in_round<F, W>(
    e0: Executor<F, W>,
    e1: Executor<F, W>,
    e2: Executor<F, W>,
    e3: Executor<F, W>,
    gone: u64,
    popped: u64,
    waker: W,
    task: Task<F>,
    finished: bool,
)
    requires
        !e0.tasks().contains_key(gone),
        e0.tasks().contains_key(popped) ==> e1.tasks() == e0.tasks().remove(popped),
        !e0.tasks().contains_key(popped) ==> e1.tasks() == e0.tasks(),
        e2.tasks() == e1.tasks(),
        e0.tasks().contains_key(popped) && finished ==> e3.tasks() == e2.tasks().remove(popped),
        e0.tasks().contains_key(popped) && !finished ==> e3.tasks() == e2.tasks().insert(popped, task),
        !e0.tasks().contains_key(popped) ==> e3.tasks() == e2.tasks(),
    ensures
        !e3.tasks().contains_key(gone),
{
}

/// Spawning never brings back a finished task's id while ids are fresh:
/// the new id is the next one, above every id given out before.
pub proof fn lemma_finished_task_stays_gone_on_spawn<F, W>(
    e0: Executor<F, W>,
    e1: Executor<F, W>,
    gone: u64,
    task: Task<F>,
)
    requires
        !e0.tasks().contains_key(gone),
        gone < e0.next_id(),
        e1.tasks() == e0.tasks().insert(e0.next_id(), task),
    ensures
        !e1.tasks().contains_key(gone),
{
}

/// While ids are fresh, the next id belongs to no task, so `spawn` may be called.
pub proof fn lemma_fresh_ids_allow_spawn<F, W>(e: Executor<F, W>)
    requires
        e.ids_fresh(),
    ensures
        !e.tasks().contains_key(e.next_id()),
{
}

} // verus!
