//! The keyboard's scancode decoder (`pc_keyboard`), together with the
//! history of what it was fed and what it answered.  Code outside this
//! module reaches the decoder only through `KeyDecoder`'s methods, which
//! record each step.

use vstd::prelude::*;

use pc_keyboard::{layouts, DecodedKey, HandleControl, KeyEvent, Keyboard, ScancodeSet1};

use super::keyboard::KeyOutput;

verus! {

#[verifier::external_type_specification]
#[verifier::external_body]
pub struct ExKeyEvent(pc_keyboard::KeyEvent);

#[verifier::external_type_specification]
#[verifier::external_body]
pub struct ExKeyCode(pc_keyboard::KeyCode);

/// The scancode decoder of `pc_keyboard` for a US 104-key keyboard sending
/// scancode set 1, with the control key not mapping letters to control
/// characters, held as an opaque value.
#[verifier::external_body]
pub struct PcKeyboard {
    keyboard: Keyboard<layouts::Us104Key, ScancodeSet1>,
}

/// `Keyboard::new(layouts::Us104Key, ScancodeSet1, HandleControl::Ignore)`:
/// a decoder in its start state.
#[verifier::external_body]
fn keyboard_new() -> PcKeyboard {
    PcKeyboard { keyboard: Keyboard::new(layouts::Us104Key, ScancodeSet1, HandleControl::Ignore) }
}

/// `Keyboard::add_byte`: feeds one byte to the decoder, giving the key event
/// it completes (`Ok(Some(..))`), nothing yet (`Ok(None)`), or an error for
/// a byte it refuses (`Err`, here `None` as well).  The answer depends on
/// the bytes fed before and is not stated.
#[verifier::external_body]
fn keyboard_add_byte(keyboard: &mut PcKeyboard, byte: u8) -> Option<KeyEvent> {
    match keyboard.keyboard.add_byte(byte) {
        Ok(event) => event,
        Err(_) => None,
    }
}

/// `Keyboard::process_keyevent`: the key a key event types, if any: a
/// character, or the key code of a key that types none.  The answer depends
/// on the modifier keys held and is not stated.
#[verifier::external_body]
fn keyboard_process_keyevent(keyboard: &mut PcKeyboard, event: KeyEvent) -> Option<KeyOutput> {
    match keyboard.keyboard.process_keyevent(event) {
        Some(DecodedKey::Unicode(character)) => Some(KeyOutput::Char(character)),
        Some(DecodedKey::RawKey(code)) => Some(KeyOutput::Raw(code)),
        None => None,
    }
}

/// The decoder, with the history of its steps.
pub struct KeyDecoder {
    keyboard: PcKeyboard,
    fed: Ghost<Seq<u8>>,
    answers: Ghost<Seq<Option<KeyEvent>>>,
    processed: Ghost<Seq<KeyEvent>>,
}

impl KeyDecoder {
    /// The bytes fed to the decoder so far, oldest first.
    pub closed spec fn fed(self) -> Seq<u8> {
        self.fed@
    }

    /// What the decoder answered to each byte fed: the key event it
    /// completed, if any.
    pub closed spec fn answers(self) -> Seq<Option<KeyEvent>> {
        self.answers@
    }

    /// The key events turned into keys so far, oldest first.
    pub closed spec fn processed(self) -> Seq<KeyEvent> {
        self.processed@
    }

    /// A decoder in its start state, fed nothing yet.
    pub fn new() -> (r: KeyDecoder)
        ensures
            r.fed() == Seq::<u8>::empty(),
            r.answers() == Seq::<Option<KeyEvent>>::empty(),
            r.processed() == Seq::<KeyEvent>::empty(),
    {
        KeyDecoder {
            keyboard: keyboard_new(),
            fed: Ghost(Seq::empty()),
            answers: Ghost(Seq::empty()),
            processed: Ghost(Seq::empty()),
        }
    }

    /// Feeds one byte to the decoder: the key event it completes, if any.
    pub fn add_byte(&mut self, byte: u8) -> (r: Option<KeyEvent>)
        ensures
            final(self).fed() == old(self).fed().push(byte),
            final(self).answers() == old(self).answers().push(r),
            final(self).processed() == old(self).processed(),
    {
        let r = keyboard_add_byte(&mut self.keyboard, byte);
        self.fed = Ghost(self.fed@.push(byte));
        self.answers = Ghost(self.answers@.push(r));
        r
    }

    /// Turns a key event into the key it types, if any.
    pub fn process_keyevent(&mut self, event: KeyEvent) -> (r: Option<KeyOutput>)
        ensures
            final(self).fed() == old(self).fed(),
            final(self).answers() == old(self).answers(),
            final(self).processed() == old(self).processed().push(event),
    {
        let ghost e = event;
        let r = keyboard_process_keyevent(&mut self.keyboard, event);
        self.processed = Ghost(self.processed@.push(e));
        r
    }
}

} // verus!
