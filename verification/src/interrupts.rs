//! Interrupt vector numbering for the chained 8259 PICs, and the decoding
//! of keyboard scancodes done by the keyboard interrupt handler.

use vstd::prelude::*;

verus! {

/// Vector of the first interrupt line of the primary PIC.
pub const PIC_1_OFFSET: u8 = 32;

/// Vector of the first interrupt line of the secondary PIC.
pub const PIC_2_OFFSET: u8 = 40;

/// The hardware interrupts the kernel handles, numbered from `PIC_1_OFFSET`.
#[derive(Debug, Clone, Copy, PartialEq, Eq, Structural)]
pub enum InterruptIndex {
    Timer,
    Keyboard,
}

impl InterruptIndex {
    /// The vector number of this interrupt.
    pub open spec fn vector(self) -> u8 {
        match self {
            InterruptIndex::Timer => PIC_1_OFFSET,
            InterruptIndex::Keyboard => (PIC_1_OFFSET + 1) as u8,
        }
    }

    /// The vector number of this interrupt as a byte.
    pub fn as_u8(self) -> (r: u8)
        ensures
            r == self.vector(),
    {
        match self {
            InterruptIndex::Timer => PIC_1_OFFSET,
            InterruptIndex::Keyboard => PIC_1_OFFSET + 1,
        }
    }

    /// The vector number of this interrupt as an index into the IDT.
    pub fn as_usize(self) -> (r: usize)
        ensures
            r == self.vector() as usize,
    {
        self.as_u8() as usize
    }
}

/// The digit printed for a scancode of scancode set 1: the keys of the
/// number row (scancodes `0x02` to `0x0b`) give `1` to `9` and then `0`;
/// every other scancode gives nothing.
pub open spec fn spec_scancode_digit(scancode: u8) -> Option<char> {
    if 0x02 <= scancode <= 0x0a {
        Some(((scancode - 1) + 48) as char)
    } else if scancode == 0x0b {
        Some('0')
    } else {
        None
    }
}

/// Decodes a scancode read from the keyboard controller into the digit it
/// stands for, as the keyboard interrupt handler does before printing it.
pub fn scancode_digit(scancode: u8) -> (r: Option<char>)
    ensures
        r == spec_scancode_digit(scancode),
        r is Some <==> 0x02 <= scancode && scancode <= 0x0b,
        r matches Some(c) ==> c as u32 == 48 + (scancode as u32 - 1) % 10,
{
    proof {
        lemma_scancode_digit_number_row(scancode);
    }
    match scancode {
        0x02 => Some('1'),
        0x03 => Some('2'),
        0x04 => Some('3'),
        0x05 => Some('4'),
        0x06 => Some('5'),
        0x07 => Some('6'),
        0x08 => Some('7'),
        0x09 => Some('8'),
        0x0a => Some('9'),
        0x0b => Some('0'),
        _ => None,
    }
}

/// Only the number row gives a digit: scancodes `0x02` to `0x0b` (keys `1`
/// to `9`, then `0`), and the digit of a key is its position in the row
/// modulo ten; every other scancode, the keypad's among them, gives none.
pub proof fn lemma_scancode_digit_number_row(scancode: u8)
    ensures
        spec_scancode_digit(scancode) is Some <==> 0x02 <= scancode && scancode <= 0x0b,
        spec_scancode_digit(scancode) matches Some(c) ==> c as u32 == 48 + (scancode as u32 - 1) % 10,
        spec_scancode_digit(scancode) matches Some(c) ==> '0' <= c && c <= '9',
{
}

} // verus!
