use bitos::task::keyboard::{
    add_scancode, new_scancode_queue, ScancodeAdded, ScancodeStream, SCANCODE_QUEUE_CAPACITY,
};
use futures_util::task::{noop_waker, AtomicWaker};

#[test]
fn scancode_without_queue_is_dropped() {
    let w = AtomicWaker::new();
    assert_eq!(add_scancode(None, &w, 0x1e), ScancodeAdded::QueueUninitialized);
}

#[test]
fn scancodes_flow_through_the_stream() {
    let q = new_scancode_queue();
    let w = AtomicWaker::new();
    let cx_waker = noop_waker();
    let mut s = ScancodeStream::new();
    assert_eq!(s.poll_next(&q, &w, &cx_waker), None);
    assert_eq!(add_scancode(Some(&q), &w, 0x1e), ScancodeAdded::Queued);
    assert_eq!(add_scancode(Some(&q), &w, 0x9e), ScancodeAdded::Queued);
    assert_eq!(s.poll_next(&q, &w, &cx_waker), Some(0x1e));
    assert_eq!(s.poll_next(&q, &w, &cx_waker), Some(0x9e));
    assert_eq!(s.poll_next(&q, &w, &cx_waker), None);
}

#[test]
fn full_queue_drops_scancodes() {
    let q = new_scancode_queue();
    let w = AtomicWaker::new();
    for i in 0..SCANCODE_QUEUE_CAPACITY {
        assert_eq!(add_scancode(Some(&q), &w, i as u8), ScancodeAdded::Queued);
    }
    assert_eq!(add_scancode(Some(&q), &w, 0xff), ScancodeAdded::QueueFull);
    let cx_waker = noop_waker();
    let mut s = ScancodeStream::new();
    assert_eq!(s.poll_next(&q, &w, &cx_waker), Some(0));
}

use bitos::task::keyboard::{
    decode_scancode, first_look, new_key_decoder, poll_outcome, push_outcome, KeyOutput,
};

#[test]
fn queue_capacity() {
    assert_eq!(new_scancode_queue().capacity(), 100);
}

#[test]
fn push_outcomes() {
    assert_eq!(push_outcome(true), (ScancodeAdded::Queued, true));
    assert_eq!(push_outcome(false), (ScancodeAdded::QueueFull, false));
}

#[test]
fn poll_outcomes() {
    assert_eq!(poll_outcome(Some(3), None), (Some(3), false));
    assert_eq!(poll_outcome(None, Some(4)), (Some(4), true));
    assert_eq!(poll_outcome(None, None), (None, false));
}

#[test]
fn decoder_types_keys() {
    let mut d = new_key_decoder();
    // 0x1e: 'a' pressed, 0x9e: 'a' released.
    assert!(matches!(decode_scancode(&mut d, 0x1e), Some(KeyOutput::Char('a'))));
    assert!(decode_scancode(&mut d, 0x9e).is_none());
    // Shift held gives the capital letter.
    assert!(decode_scancode(&mut d, 0x2a).is_none());
    assert!(matches!(decode_scancode(&mut d, 0x1e), Some(KeyOutput::Char('A'))));
    assert!(decode_scancode(&mut d, 0xaa).is_none());
    // 0x3b: F1 types no character.
    assert!(matches!(
        decode_scancode(&mut d, 0x3b),
        Some(KeyOutput::Raw(pc_keyboard::KeyCode::F1))
    ));
}

#[test]
fn second_look_only_after_empty_first_look() {
    assert!(first_look(None));
    assert!(!first_look(Some(0x1e)));
}
