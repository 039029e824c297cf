//! The bounded lock-free queue (`crossbeam_queue::ArrayQueue`) that the
//! executors and the keyboard interrupt handler share, and the slot
//! (`futures_util::task::AtomicWaker`) holding the waker of the task that
//! waits for the queue.  Other parties push, pop and wake concurrently
//! through shared references, so nothing is stated about what the queue
//! holds, only about the capacity it was made with, which never changes,
//! and about the value each call hands back.
//!
//! Code outside this module reaches the queue and the slot only through
//! the functions here that record each operation, with what it answered,
//! in a `SharedLog`: the log is the history of what that code did to them.

use vstd::prelude::*;

use core::task::Waker;

use crossbeam_queue::ArrayQueue;
use futures_util::task::AtomicWaker;

verus! {

#[verifier::external_type_specification]
#[verifier::external_body]
#[verifier::reject_recursive_types(T)]
pub struct ExArrayQueue<T>(crossbeam_queue::ArrayQueue<T>);

/// The capacity a queue of task ids was made with (what `ArrayQueue::capacity`
/// gives); it never changes.
pub uninterp spec fn id_queue_capacity(queue: ArrayQueue<u64>) -> usize;

/// The capacity a queue of scancodes was made with (what `ArrayQueue::capacity`
/// gives); it never changes.
pub uninterp spec fn byte_queue_capacity(queue: ArrayQueue<u8>) -> usize;

/// `ArrayQueue::new` for task ids: a new queue that holds at most
/// `capacity` items.  It panics on a zero capacity, which the precondition
/// rules out.
#[verifier::external_body]
pub(crate) fn id_queue_new(capacity: usize) -> (r: ArrayQueue<u64>)
    requires
        capacity > 0,
    ensures
        id_queue_capacity(r) == capacity,
{
    ArrayQueue::new(capacity)
}

/// `ArrayQueue::new` for scancodes: a new queue that holds at most
/// `capacity` items.  It panics on a zero capacity, which the precondition
/// rules out.
#[verifier::external_body]
pub(crate) fn byte_queue_new(capacity: usize) -> (r: ArrayQueue<u8>)
    requires
        capacity > 0,
    ensures
        byte_queue_capacity(r) == capacity,
{
    ArrayQueue::new(capacity)
}

/// `ArrayQueue::push`: appends `value` unless the queue is full, in which
/// case the value is handed back in the error.  Whether the queue was full
/// depends on the other parties and is not stated.
#[verifier::external_body]
fn queue_push<T>(queue: &ArrayQueue<T>, value: T) -> (r: Result<(), T>)
    ensures
        r matches Err(v) ==> v == value,
{
    queue.push(value).map_err(|e| e.0)
}

/// `ArrayQueue::pop`: takes the oldest item, or `None` if the queue is
/// empty.  Which item that is depends on the other parties and is not stated.
#[verifier::external_body]
fn queue_pop<T>(queue: &ArrayQueue<T>) -> Option<T> {
    queue.pop().ok()
}

/// `ArrayQueue::is_empty`: whether the queue was empty when looked at.
/// Other parties may change that at any time, so nothing is stated.
#[verifier::external_body]
pub(crate) fn queue_is_empty<T>(queue: &ArrayQueue<T>) -> bool {
    queue.is_empty()
}

#[verifier::external_type_specification]
#[verifier::external_body]
pub struct ExAtomicWaker(futures_util::task::AtomicWaker);

#[verifier::external_type_specification]
#[verifier::external_body]
pub struct ExWaker(core::task::Waker);

/// `AtomicWaker::wake`: wakes the task whose waker is registered, if any.
#[verifier::external_body]
fn waker_wake(slot: &AtomicWaker) {
    slot.wake()
}

/// `AtomicWaker::register`: registers `waker` as the one to wake.
#[verifier::external_body]
fn waker_register(slot: &AtomicWaker, waker: &Waker) {
    slot.register(waker)
}

/// `AtomicWaker::take`: takes the registered waker out, if any.
#[verifier::external_body]
fn waker_take(slot: &AtomicWaker) -> Option<Waker> {
    slot.take()
}

/// One operation on a shared queue or waker slot, with what it answered.
pub enum SharedOp<T> {
    /// A push of this value, and whether it went in.
    Push(T, bool),
    /// A pop, and the value it took out (`None`: the queue was empty).
    Pop(Option<T>),
    /// The task's waker was registered in the slot.
    Register,
    /// The registered waker was taken back out of the slot.
    TakeBack,
    /// The task whose waker is registered was woken.
    Wake,
}

/// The history of the operations some code made on a shared queue and
/// waker slot, oldest first.
pub struct SharedLog<T> {
    ops: Ghost<Seq<SharedOp<T>>>,
}

impl<T> SharedLog<T> {
    /// The operations recorded so far, oldest first.
    pub closed spec fn ops(self) -> Seq<SharedOp<T>> {
        self.ops@
    }

    /// An empty history.
    pub fn new() -> (r: SharedLog<T>)
        ensures
            r.ops() == Seq::<SharedOp<T>>::empty(),
    {
        SharedLog { ops: Ghost(Seq::empty()) }
    }
}

/// Pushes `value` into the queue, recording the push and whether it went in.
pub fn push<T>(queue: &ArrayQueue<T>, value: T, log: &mut SharedLog<T>) -> (r: Result<(), T>)
    ensures
        r matches Err(v) ==> v == value,
        final(log).ops() == old(log).ops().push(SharedOp::Push(value, r is Ok)),
{
    let ghost v = value;
    let r = queue_push(queue, value);
    log.ops = Ghost(log.ops@.push(SharedOp::Push(v, r is Ok)));
    r
}

/// Pops the oldest value out of the queue, recording the pop and its answer.
pub fn pop<T>(queue: &ArrayQueue<T>, log: &mut SharedLog<T>) -> (r: Option<T>)
    ensures
        final(log).ops() == old(log).ops().push(SharedOp::Pop(r)),
{
    let r = queue_pop(queue);
    log.ops = Ghost(log.ops@.push(SharedOp::Pop(r)));
    r
}

/// Registers `waker` in the slot, recording it.
pub fn register<T>(slot: &AtomicWaker, waker: &Waker, log: &mut SharedLog<T>)
    ensures
        final(log).ops() == old(log).ops().push(SharedOp::Register),
{
    waker_register(slot, waker);
    log.ops = Ghost(log.ops@.push(SharedOp::Register));
}

/// Takes the registered waker back out of the slot, recording it.
pub fn take_back<T>(slot: &AtomicWaker, log: &mut SharedLog<T>)
    ensures
        final(log).ops() == old(log).ops().push(SharedOp::TakeBack),
{
    let _ = waker_take(slot);
    log.ops = Ghost(log.ops@.push(SharedOp::TakeBack));
}

/// Wakes the task whose waker is in the slot, recording it.
pub fn wake<T>(slot: &AtomicWaker, log: &mut SharedLog<T>)
    ensures
        final(log).ops() == old(log).ops().push(SharedOp::Wake),
{
    waker_wake(slot);
    log.ops = Ghost(log.ops@.push(SharedOp::Wake));
}

} // verus!
