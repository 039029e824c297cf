use bitos::interrupts::{scancode_digit, InterruptIndex, PIC_1_OFFSET, PIC_2_OFFSET};

#[test]
fn trivial_assertion() {
    assert_eq!(1, 1);
}

#[test]
fn pic_offsets() {
    assert_eq!(PIC_1_OFFSET, 32);
    assert_eq!(PIC_2_OFFSET, 40);
}

#[test]
fn interrupt_vectors() {
    assert_eq!(InterruptIndex::Timer.as_u8(), 32);
    assert_eq!(InterruptIndex::Keyboard.as_u8(), 33);
    assert_eq!(InterruptIndex::Timer.as_usize(), 32usize);
    assert_eq!(InterruptIndex::Keyboard.as_usize(), 33usize);
}

#[test]
fn number_row_scancodes() {
    let expected = ['1', '2', '3', '4', '5', '6', '7', '8', '9', '0'];
    for (i, c) in expected.iter().enumerate() {
        assert_eq!(scancode_digit(0x02 + i as u8), Some(*c));
    }
}

#[test]
fn other_scancodes_give_nothing() {
    assert_eq!(scancode_digit(0x00), None);
    assert_eq!(scancode_digit(0x01), None);
    assert_eq!(scancode_digit(0x0c), None);
    assert_eq!(scancode_digit(0x1e), None);
    assert_eq!(scancode_digit(0x82), None);
    assert_eq!(scancode_digit(0xff), None);
}
