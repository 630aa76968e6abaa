//! The fixed-layout USB HID keyboard report synthesized by the decoder.

use vstd::prelude::*;

use crate::key_codes::{hid_code_spec, KeyCode};

verus! {

/// An immutable snapshot of the keyboard's input state, in the fixed layout a
/// USB host polls: modifier byte, reserved byte, LED byte (no LED feedback
/// path exists, so always 0), and six key-code slots, left-packed and
/// zero-filled.
#[derive(Clone, Copy, PartialEq, Eq, Debug)]
pub struct KeyboardReport {
    pub modifier: u8,
    pub reserved: u8,
    pub leds: u8,
    pub keycodes: [u8; 6],
}

/// The HID usage value owed to slot `i` of a report derived from the pressed
/// keys `pressed`: the key's usage while the slot is filled, 0 past the end.
pub open spec fn slot_spec(pressed: Seq<KeyCode>, i: int) -> u8 {
    if 0 <= i < pressed.len() {
        hid_code_spec(pressed[i])
    } else {
        0
    }
}

/// What a report derived from pressed keys `pressed` under modifier byte
/// `modifiers` holds: the modifier byte as given, reserved and LED bytes 0,
/// and the pressed keys' usages left-packed into the six slots.
pub open spec fn report_matches(r: KeyboardReport, pressed: Seq<KeyCode>, modifiers: u8) -> bool {
    &&& r.modifier == modifiers
    &&& r.reserved == 0
    &&& r.leds == 0
    &&& forall|i: int| 0 <= i < 6 ==> r.keycodes[i] == slot_spec(pressed, i)
}

/// The all-released report: every byte zero.
pub open spec fn report_is_zero(r: KeyboardReport) -> bool {
    report_matches(r, Seq::<KeyCode>::empty(), 0)
}

impl Default for KeyboardReport {
    /// The report before any key event has been decoded: all bytes zero.
    fn default() -> (r: KeyboardReport)
        ensures
            report_is_zero(r),
    {
        KeyboardReport { modifier: 0, reserved: 0, leds: 0, keycodes: [0, 0, 0, 0, 0, 0] }
    }
}

} // verus!
