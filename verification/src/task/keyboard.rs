//! Keyboard input: the keyboard interrupt handler puts scancodes into a
//! bounded queue and wakes the task waiting for them; that task takes them
//! out again as a stream.

use vstd::prelude::*;

use core::task::Waker;

use crossbeam_queue::ArrayQueue;
use futures_util::task::AtomicWaker;
use pc_keyboard::KeyCode;

use super::queue::{
    byte_queue_capacity, byte_queue_new, pop, push, register, take_back, wake, SharedLog, SharedOp,
};

pub use super::key_decoder::KeyDecoder;

verus! {

/// Number of scancodes the queue holds at most.
pub const SCANCODE_QUEUE_CAPACITY: usize = 100;

/// A new, empty scancode queue holding up to `SCANCODE_QUEUE_CAPACITY` scancodes.
pub fn new_scancode_queue() -> (r: ArrayQueue<u8>)
    ensures
        byte_queue_capacity(r) == SCANCODE_QUEUE_CAPACITY,
{
    byte_queue_new(SCANCODE_QUEUE_CAPACITY)
}

/// What became of a scancode handed over by the interrupt handler.
#[derive(Debug, Clone, Copy, PartialEq, Eq, Structural)]
pub enum ScancodeAdded {
    /// It was queued and the waiting task was woken.
    Queued,
    /// The queue was full; the scancode is dropped.
    QueueFull,
    /// The queue does not exist yet; the scancode is dropped.
    QueueUninitialized,
}

/// What a push of a scancode into an existing queue amounts to: queued
/// where the push succeeded, dropped because the queue is full otherwise;
/// and whether the waiting task is to be woken, which is exactly when the
/// push succeeded (and only after it, so that the task never runs before
/// its scancode is in the queue).
pub fn push_outcome(pushed: bool) -> (r: (ScancodeAdded, bool))
    ensures
        r.0 == (if pushed {
            ScancodeAdded::Queued
        } else {
            ScancodeAdded::QueueFull
        }),
        r.1 <==> pushed,
{
    if pushed {
        (ScancodeAdded::Queued, true)
    } else {
        (ScancodeAdded::QueueFull, false)
    }
}

/// What handing over a scancode records on the queue and waker slot:
/// nothing without a queue; otherwise the push of the scancode, followed by
/// waking the task exactly when the push went in.
pub open spec fn add_scancode_ops(has_queue: bool, scancode: u8, pushed: bool) -> Seq<SharedOp<u8>> {
    if !has_queue {
        Seq::empty()
    } else if pushed {
        seq![SharedOp::Push(scancode, true), SharedOp::Wake]
    } else {
        seq![SharedOp::Push(scancode, false)]
    }
}

/// Hands a scancode to the keyboard task, recording in `log` what it did:
/// pushes the scancode into the queue and then, only where it went in,
/// wakes the task.  The answer is `Queued` exactly when the push went in,
/// `QueueFull` exactly when it did not, and `QueueUninitialized` (with
/// nothing done) exactly when there is no queue.
pub fn add_scancode_logged(
    queue: Option<&ArrayQueue<u8>>,
    waker: &AtomicWaker,
    scancode: u8,
    log: &mut SharedLog<u8>,
) -> (r: ScancodeAdded)
    ensures
        r is QueueUninitialized <==> queue is None,
        final(log).ops() == old(log).ops() + add_scancode_ops(queue is Some, scancode, r is Queued),
{
    match queue {
        Some(queue) => {
            let pushed = push(queue, scancode, log).is_ok();
            let (added, wake_task) = push_outcome(pushed);
            if wake_task {
                wake(waker, log);
            }
            proof {
                assert(final(log).ops() =~= old(log).ops() + add_scancode_ops(true, scancode, pushed));
            }
            added
        },
        None => {
            assert(log.ops() =~= old(log).ops() + add_scancode_ops(false, scancode, false));
            ScancodeAdded::QueueUninitialized
        },
    }
}

/// Hands a scancode from the interrupt handler to the keyboard task:
/// pushes it into the queue, and then wakes the task where `push_outcome`
/// says so (see `add_scancode_logged`, which this runs).  Whether the push
/// works depends on the queue's other users.
pub fn add_scancode(queue: Option<&ArrayQueue<u8>>, waker: &AtomicWaker, scancode: u8) -> (r:
    ScancodeAdded)
    ensures
        r is QueueUninitialized <==> queue is None,
        queue is Some ==> (r is Queued || r is QueueFull),
{
    let mut log = SharedLog::new();
    add_scancode_logged(queue, waker, scancode, &mut log)
}

/// Whether a poll must look at the queue a second time, given what the
/// first look found: exactly when it found nothing.  Before that second
/// look the task's waker is registered, so that a scancode pushed between
/// the two looks wakes the task instead of being missed.
pub fn first_look(first: Option<u8>) -> (retry: bool)
    ensures
        retry <==> first is None,
{
    first.is_none()
}

/// What a poll amounts to, given what the first look at the queue found
/// and, where that was nothing, what the second look (made after the task's
/// waker was registered) found: the scancode found first, if any; and
/// whether the registered waker must be taken back, which is when the
/// second look found a scancode.  The waker is registered exactly when the
/// first look found nothing.
pub open spec fn spec_poll_outcome(first: Option<u8>, second: Option<u8>) -> (Option<u8>, bool) {
    if first is Some {
        (first, false)
    } else {
        (second, second is Some)
    }
}

/// Decides a poll from the answers of the queue; see `spec_poll_outcome`.
pub fn poll_outcome(first: Option<u8>, second: Option<u8>) -> (r: (Option<u8>, bool))
    ensures
        r == spec_poll_outcome(first, second),
        r.0 == (if first is Some { first } else { second }),
        r.1 <==> (first is None && second is Some),
{
    match first {
        Some(_) => (first, false),
        None => (second, second.is_some()),
    }
}

/// What one poll of the stream records on the queue and waker slot, given
/// its result: a pop that found the scancode returned; or a pop that found
/// nothing, the registering of the task's waker, a second pop, and, where
/// that second pop found the scancode returned, taking the waker back.
/// The queue is never pushed to, and at most one scancode is taken out.
pub open spec fn is_poll_trace(ops: Seq<SharedOp<u8>>, r: Option<u8>) -> bool {
    ||| r is Some && ops == seq![SharedOp::Pop(r)]
    ||| r is Some && ops == seq![SharedOp::Pop(None), SharedOp::Register, SharedOp::Pop(r), SharedOp::TakeBack]
    ||| r is None && ops == seq![SharedOp::Pop(None::<u8>), SharedOp::Register, SharedOp::Pop(None::<u8>)]
}

/// The stream of scancodes typed on the keyboard.
pub struct ScancodeStream {
    log: SharedLog<u8>,
}

impl ScancodeStream {
    /// What the stream has done to the queue and waker slot, oldest first.
    pub closed spec fn ops(self) -> Seq<SharedOp<u8>> {
        self.log.ops()
    }

    /// The stream.  There is one scancode queue, which the caller creates
    /// with `new_scancode_queue` before the stream is made.
    pub fn new() -> (r: ScancodeStream)
        ensures
            r.ops() == Seq::<SharedOp<u8>>::empty(),
    {
        ScancodeStream { log: SharedLog::new() }
    }

    /// Polls for the next scancode: `Some` when one is ready, `None` when
    /// the task must wait.  Before it waits, the task's waker is registered
    /// and the queue checked once more, so that a scancode arriving in
    /// between is not missed; a scancode found that way unregisters the
    /// waker.  The result is exactly what the (last) pop took out of the
    /// queue, and nothing is put back.
    pub fn poll_next(&mut self, queue: &ArrayQueue<u8>, waker: &AtomicWaker, cx_waker: &Waker) -> (r:
        Option<u8>)
        ensures
            final(self).ops().len() >= old(self).ops().len(),
            final(self).ops().subrange(0, old(self).ops().len() as int) == old(self).ops(),
            is_poll_trace(
                final(self).ops().subrange(old(self).ops().len() as int, final(self).ops().len() as int),
                r,
            ),
    {
        let ghost start = self.log.ops();
        let first = pop(queue, &mut self.log);
        let second = if first_look(first) {
            register(waker, cx_waker, &mut self.log);
            pop(queue, &mut self.log)
        } else {
            None
        };
        let (scancode, take) = poll_outcome(first, second);
        if take {
            take_back(waker, &mut self.log);
        }
        proof {
            let n = start.len() as int;
            let ops = self.log.ops();
            assert(ops.subrange(0, n) =~= start);
            let t = ops.subrange(n, ops.len() as int);
            if first is Some {
                assert(t =~= seq![SharedOp::Pop(scancode)]);
            } else if second is Some {
                assert(t =~= seq![SharedOp::Pop(None), SharedOp::Register, SharedOp::Pop(scancode), SharedOp::TakeBack]);
            } else {
                assert(t =~= seq![SharedOp::Pop(None::<u8>), SharedOp::Register, SharedOp::Pop(None::<u8>)]);
            }
        }
        scancode
    }
}

/// A poll takes at most one scancode out of the queue, never puts one in,
/// and returns the scancode it took out; it waits (`None`) only after
/// registering the task's waker and finding the queue empty twice.
pub proof fn lemma_poll_takes_one_in_order(ops: Seq<SharedOp<u8>>, r: Option<u8>)
    requires
        is_poll_trace(ops, r),
    ensures
        forall|i: int| 0 <= i < ops.len() ==> !(#[trigger] ops[i] is Push),
        r matches Some(s) ==> ops.contains(SharedOp::Pop(Some(s))),
        forall|i: int, j: int|
            0 <= i < j < ops.len() && ops[i] is Pop && ops[j] is Pop ==> ops[i] == SharedOp::<u8>::Pop(None),
        r is None ==> ops.contains(SharedOp::<u8>::Register),
{
    if let Some(s) = r {
        if ops.len() == 1 {
            assert(ops[0] == SharedOp::Pop(Some(s)));
        } else {
            assert(ops[2] == SharedOp::Pop(Some(s)));
        }
    } else {
        assert(ops[1] == SharedOp::<u8>::Register);
    }
}

/// A key typed on the keyboard.
pub enum KeyOutput {
    /// A key that types this character.
    Char(char),
    /// A key that types no character, by its key code.
    Raw(KeyCode),
}

/// A decoder in its start state, fed nothing yet.
pub fn new_key_decoder() -> (r: KeyDecoder)
    ensures
        r.fed() == Seq::<u8>::empty(),
        r.answers() == Seq::<Option<pc_keyboard::KeyEvent>>::empty(),
        r.processed() == Seq::<pc_keyboard::KeyEvent>::empty(),
{
    KeyDecoder::new()
}

/// Feeds one scancode to the decoder and gives the key typed, if any: every
/// scancode, prefixes of multi-byte sequences included, goes to the
/// decoder's `add_byte`; where that completes a key event, the event goes
/// to `process_keyevent`, whose answer is the result; otherwise nothing is
/// typed.  Both answers come from the decoder, whose state the earlier
/// scancodes set.
pub fn decode_scancode(decoder: &mut KeyDecoder, scancode: u8) -> (r: Option<KeyOutput>)
    ensures
        final(decoder).fed() == old(decoder).fed().push(scancode),
        final(decoder).answers().len() == old(decoder).answers().len() + 1,
        final(decoder).answers().drop_last() == old(decoder).answers(),
        match final(decoder).answers().last() {
            Some(event) => final(decoder).processed() == old(decoder).processed().push(event),
            None => final(decoder).processed() == old(decoder).processed() && r is None,
        },
{
    match decoder.add_byte(scancode) {
        Some(event) => {
            let r = decoder.process_keyevent(event);
            proof {
                assert(decoder.answers().drop_last() =~= old(decoder).answers());
            }
            r
        },
        None => {
            proof {
                assert(decoder.answers().drop_last() =~= old(decoder).answers());
            }
            None
        },
    }
}

} // verus!
