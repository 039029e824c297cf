use bitos::task::executor::{Executor, ReadyTask, SpawnError, TaskId, TASK_QUEUE_CAPACITY};
use bitos::task::simple_executor::SimpleExecutor;
use bitos::task::Task;

#[test]
fn simple_executor_is_first_in_first_out() {
    let mut e: SimpleExecutor<u32> = SimpleExecutor::new();
    e.spawn(Task::new(1));
    e.spawn(Task::new(2));
    e.spawn(Task::new(3));
    let mut t = e.next_task().unwrap();
    assert_eq!(*t.future_mut(), 1);
    e.complete_poll(t, false);
    let mut t = e.next_task().unwrap();
    assert_eq!(*t.future_mut(), 2);
    e.complete_poll(t, true);
    let mut t = e.next_task().unwrap();
    assert_eq!(*t.future_mut(), 3);
    e.complete_poll(t, true);
    let mut t = e.next_task().unwrap();
    assert_eq!(*t.future_mut(), 1);
    e.complete_poll(t, true);
    assert!(e.next_task().is_none());
}

#[test]
fn round_robin_until_done() {
    // Each task needs as many polls as its number; record the polling order.
    let mut e: SimpleExecutor<(u32, u32)> = SimpleExecutor::new();
    e.spawn(Task::new((1, 2)));
    e.spawn(Task::new((2, 1)));
    e.spawn(Task::new((3, 3)));
    let mut order = Vec::new();
    while let Some(mut t) = e.next_task() {
        let f = t.future_mut();
        order.push(f.0);
        f.1 -= 1;
        let done = f.1 == 0;
        e.complete_poll(t, done);
    }
    assert_eq!(order, vec![1, 2, 3, 1, 3, 3]);
}

#[test]
fn task_future_can_be_changed() {
    let mut t = Task::new(5u8);
    *t.future_mut() = 7;
    assert_eq!(*t.future_mut(), 7);
}

#[test]
fn executor_spawns_with_fresh_ids() {
    let mut e: Executor<&str, u8> = Executor::new();
    assert_eq!(e.spawn(Task::new("a")), Ok(TaskId(0)));
    assert_eq!(e.spawn(Task::new("b")), Ok(TaskId(1)));
    match e.next_ready_task() {
        ReadyTask::Ready(id, mut t) => {
            assert_eq!(id, TaskId(0));
            assert_eq!(*t.future_mut(), "a");
            e.complete_poll(id, t, true);
        }
        _ => panic!("expected a ready task"),
    }
    match e.next_ready_task() {
        ReadyTask::Ready(id, mut t) => {
            assert_eq!(id, TaskId(1));
            assert_eq!(*t.future_mut(), "b");
            e.cache_waker(id, 9);
            assert_eq!(e.cached_waker(id), Some(&9));
            e.cache_waker(id, 10);
            assert_eq!(e.cached_waker(id), Some(&9));
            e.complete_poll(id, t, false);
        }
        _ => panic!("expected a ready task"),
    }
    assert!(e.queue_is_empty());
    assert!(matches!(e.next_ready_task(), ReadyTask::QueueEmpty));
    // Waking task 1 puts it back into the queue.
    let w = e.task_waker(TaskId(1));
    assert_eq!(w.wake_task(), Ok(()));
    assert!(!e.queue_is_empty());
    match e.next_ready_task() {
        ReadyTask::Ready(id, t) => {
            assert_eq!(id, TaskId(1));
            e.complete_poll(id, t, true);
            assert_eq!(e.cached_waker(id), None);
        }
        _ => panic!("expected a ready task"),
    }
    // A stale wake of a finished task is skipped.
    assert_eq!(e.task_waker(TaskId(0)).wake_task(), Ok(()));
    assert!(matches!(e.next_ready_task(), ReadyTask::Missing(TaskId(0))));
    assert!(matches!(e.next_ready_task(), ReadyTask::QueueEmpty));
}

#[test]
fn executor_queue_full() {
    let mut e: Executor<u32, ()> = Executor::new();
    for i in 0..TASK_QUEUE_CAPACITY as u64 {
        assert_eq!(e.spawn(Task::new(i as u32)), Ok(TaskId(i)));
    }
    let n = TASK_QUEUE_CAPACITY as u64;
    assert_eq!(e.spawn(Task::new(0)), Err(SpawnError::QueueFull(TaskId(n))));
    assert_eq!(e.task_waker(TaskId(3)).wake_task(), Err(TaskId(3)));
}

#[test]
fn ready_task_for_each_answer_of_the_queue() {
    let mut e: Executor<u32, ()> = Executor::new();
    assert_eq!(e.spawn(Task::new(7)), Ok(TaskId(0)));
    assert!(matches!(e.ready_task_for(None), ReadyTask::QueueEmpty));
    assert!(matches!(e.ready_task_for(Some(5)), ReadyTask::Missing(TaskId(5))));
    match e.ready_task_for(Some(0)) {
        ReadyTask::Ready(id, mut t) => {
            assert_eq!(id, TaskId(0));
            assert_eq!(*t.future_mut(), 7);
        }
        _ => panic!("expected a ready task"),
    }
    assert!(matches!(e.ready_task_for(Some(0)), ReadyTask::Missing(TaskId(0))));
}

#[test]
fn ready_queue_capacity_and_ids() {
    let mut e: Executor<u32, ()> = Executor::new();
    assert_eq!(e.next_task_id(), TaskId(0));
    assert!(!e.contains_task(TaskId(0)));
    assert_eq!(e.spawn(Task::new(1)), Ok(TaskId(0)));
    assert!(e.contains_task(TaskId(0)));
    assert_eq!(e.next_task_id(), TaskId(1));
}
