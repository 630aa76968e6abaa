use vstd::prelude::*;

use crate::key_codes::KeyCode;

verus! {

/// Flag bit for the left control key.
pub const LEFT_CTRL: u8 = 0b0000_0001;
/// Flag bit for the left shift key.
pub const LEFT_SHIFT: u8 = 0b0000_0010;
/// Flag bit for the left alt key.
pub const LEFT_ALT: u8 = 0b0000_0100;
/// Flag bit for the left meta (GUI) key.
pub const LEFT_META: u8 = 0b0000_1000;
/// Flag bit for the right control key.
pub const RIGHT_CTRL: u8 = 0b0001_0000;
/// Flag bit for the right shift key.
pub const RIGHT_SHIFT: u8 = 0b0010_0000;
/// Flag bit for the right alt key.
pub const RIGHT_ALT: u8 = 0b0100_0000;
/// Flag bit for the right meta (GUI) key.
pub const RIGHT_META: u8 = 0b1000_0000;

/// The modifier flag that a key code contributes to the modifier byte:
/// each modifier key maps to exactly one flag, every other key to none.
pub open spec fn modifier_flag(key: KeyCode) -> u8 {
    match key {
        KeyCode::KeyboardLeftShift => LEFT_SHIFT,
        KeyCode::KeyboardRightShift => RIGHT_SHIFT,
        KeyCode::KeyboardLeftAlt => LEFT_ALT,
        KeyCode::KeyboardRightAlt => RIGHT_ALT,
        KeyCode::KeyboardLeftControl => LEFT_CTRL,
        KeyCode::KeyboardRightControl => RIGHT_CTRL,
        KeyCode::KeyboardLeftGui => LEFT_META,
        KeyCode::KeyboardRightGui => RIGHT_META,
        _ => 0,
    }
}

/// Two distinct key codes never contribute a common modifier bit.
pub proof fn lemma_modifier_flags_disjoint(k1: KeyCode, k2: KeyCode)
    requires
        k1 != k2,
    ensures
        modifier_flag(k1) & modifier_flag(k2) == 0,
{
    let f1 = modifier_flag(k1);
    let f2 = modifier_flag(k2);
    assert(f1 != f2 || f1 == 0);
    assert((f1 == 0 || f1 == 1 || f1 == 2 || f1 == 4 || f1 == 8 || f1 == 16 || f1 == 32
        || f1 == 64 || f1 == 128) && (f2 == 0 || f2 == 1 || f2 == 2 || f2 == 4 || f2 == 8
        || f2 == 16 || f2 == 32 || f2 == 64 || f2 == 128) && (f1 != f2 || f1 == 0)
        ==> (f1 & f2) == 0) by (bit_vector);
}

/// The bitset over the eight modifier flags, as carried in the first byte of
/// a report. The view of a value is its raw bits.
#[derive(Clone, Copy, PartialEq, Eq, Structural, Debug)]
pub struct Modifiers {
    bits: u8,
}

impl View for Modifiers {
    type V = u8;

    closed spec fn view(&self) -> u8 {
        self.bits
    }
}

impl Modifiers {
    /// The empty bitset: no modifier held.
    pub fn empty() -> (r: Modifiers)
        ensures
            r@ == 0,
    {
        Modifiers { bits: 0 }
    }

    /// The flag contributed by one key code.
    pub fn from_key(key: KeyCode) -> (r: Modifiers)
        ensures
            r@ == modifier_flag(key),
    {
        let bits: u8 = match key {
            KeyCode::KeyboardLeftShift => LEFT_SHIFT,
            KeyCode::KeyboardRightShift => RIGHT_SHIFT,
            KeyCode::KeyboardLeftAlt => LEFT_ALT,
            KeyCode::KeyboardRightAlt => RIGHT_ALT,
            KeyCode::KeyboardLeftControl => LEFT_CTRL,
            KeyCode::KeyboardRightControl => RIGHT_CTRL,
            KeyCode::KeyboardLeftGui => LEFT_META,
            KeyCode::KeyboardRightGui => RIGHT_META,
            _ => 0,
        };
        Modifiers { bits }
    }

    /// The union of two bitsets.
    pub fn union(self, other: Modifiers) -> (r: Modifiers)
        ensures
            r@ == (self@ | other@),
    {
        Modifiers { bits: self.bits | other.bits }
    }

    /// The bits of `self` with the bits of `other` removed.
    pub fn difference(self, other: Modifiers) -> (r: Modifiers)
        ensures
            r@ == (self@ & !other@),
    {
        Modifiers { bits: self.bits & !other.bits }
    }

    /// The raw modifier byte.
    pub fn bits(self) -> (r: u8)
        ensures
            r == self@,
    {
        self.bits
    }
}

} // verus!
