//! Tests of the modifier bitset, the report relay and the USB device-state
//! bookkeeping.

use kb_driver::handlers::MyUsbHandler;
use kb_driver::key_codes::KeyCode;
use kb_driver::modifiers::Modifiers;
use kb_driver::relay::ReportSlot;
use kb_driver::report::KeyboardReport;

#[test]
fn modifier_bitset_operations() {
    let none = Modifiers::empty();
    assert_eq!(none.bits(), 0);
    let shift = Modifiers::from_key(KeyCode::KeyboardLeftShift);
    let ctrl = Modifiers::from_key(KeyCode::KeyboardRightControl);
    assert_eq!(shift.bits(), 0x02);
    assert_eq!(ctrl.bits(), 0x10);
    let both = shift.union(ctrl);
    assert_eq!(both.bits(), 0x12);
    assert_eq!(both.difference(shift).bits(), 0x10);
    assert_eq!(both.difference(both).bits(), 0);
}

#[test]
fn modifier_flags_of_every_modifier_key() {
    let cases = [
        (KeyCode::KeyboardLeftControl, 0x01u8),
        (KeyCode::KeyboardLeftShift, 0x02),
        (KeyCode::KeyboardLeftAlt, 0x04),
        (KeyCode::KeyboardLeftGui, 0x08),
        (KeyCode::KeyboardRightControl, 0x10),
        (KeyCode::KeyboardRightShift, 0x20),
        (KeyCode::KeyboardRightAlt, 0x40),
        (KeyCode::KeyboardRightGui, 0x80),
    ];
    for (key, bit) in cases {
        assert_eq!(Modifiers::from_key(key).bits(), bit);
    }
    assert_eq!(Modifiers::from_key(KeyCode::KeyboardA).bits(), 0);
    assert_eq!(Modifiers::from_key(KeyCode::KeyboardCapsLock).bits(), 0);
}

#[test]
fn relay_starts_with_the_zero_report() {
    let slot = ReportSlot::new();
    let r = slot.current();
    assert_eq!(r.modifier, 0);
    assert_eq!(r.reserved, 0);
    assert_eq!(r.leds, 0);
    assert_eq!(r.keycodes, [0u8; 6]);
}

#[test]
fn relay_exposes_the_latest_snapshot() {
    let mut slot = ReportSlot::new();
    let first = KeyboardReport { modifier: 2, reserved: 0, leds: 0, keycodes: [4, 0, 0, 0, 0, 0] };
    slot.publish(first);
    assert_eq!(slot.current(), first);
    let second = KeyboardReport { modifier: 0, reserved: 0, leds: 0, keycodes: [0; 6] };
    slot.publish(second);
    assert_eq!(slot.current(), second);
}

#[test]
fn usb_handler_tracks_configuration() {
    let mut handler = MyUsbHandler::new();
    assert!(!handler.is_configured());
    handler.enabled(true);
    assert!(handler.is_configured());
    handler.reset();
    assert!(!handler.is_configured());
    handler.configured(true);
    assert!(handler.is_configured());
    handler.addressed(7);
    handler.suspended(true);
    handler.remote_wakeup_enabled(true);
    assert!(handler.is_configured());
    handler.configured(false);
    assert!(!handler.is_configured());
    let fresh = MyUsbHandler::default();
    assert!(!fresh.is_configured());
}
