//! Tests of the key-state decoder: decode steps, report synthesis, and the
//! edge cases of the make/break protocol.

use kb_driver::report::KeyboardReport;
use kb_driver::state::State;

const UP: u8 = 0x80;

fn report_of(state: &State) -> KeyboardReport {
    state.report()
}

fn zero_report() -> KeyboardReport {
    KeyboardReport { modifier: 0, reserved: 0, leds: 0, keycodes: [0, 0, 0, 0, 0, 0] }
}

#[test]
fn initial_state_reports_all_zero() {
    let state = State::new();
    assert_eq!(report_of(&state), zero_report());
    assert_eq!(state.raw_keycode_arr(), [0u8; 6]);
}

#[test]
fn key_down_then_up_round_trips() {
    // position 17 carries KeyboardA
    let mut state = State::new();
    let before = report_of(&state);
    state.update_from_kb_input(17);
    state.update_from_kb_input(17 | UP);
    assert_eq!(report_of(&state), before);
}

#[test]
fn round_trip_with_other_keys_held() {
    let mut state = State::new();
    state.update_from_kb_input(18); // S
    state.update_from_kb_input(88); // left shift
    let before = report_of(&state);
    state.update_from_kb_input(17); // A down
    state.update_from_kb_input(17 | UP); // A up
    assert_eq!(report_of(&state), before);
}

#[test]
fn single_key_down_and_up_reports() {
    // the position mapped to KeyboardA: down gives {0, [4,0,0,0,0,0]},
    // up gives the all-zero report again
    let mut state = State::new();
    state.update_from_kb_input(0x11);
    let down = report_of(&state);
    assert_eq!(down.modifier, 0);
    assert_eq!(down.keycodes, [4, 0, 0, 0, 0, 0]);
    state.update_from_kb_input(0x91);
    assert_eq!(report_of(&state), zero_report());
}

#[test]
fn distinct_downs_left_packed_in_press_order() {
    // A, S, D, F, G, H at positions 17..=22
    let mut state = State::new();
    for pos in 17u8..=22u8 {
        state.update_from_kb_input(pos);
    }
    let r = report_of(&state);
    assert_eq!(r.keycodes, [4, 22, 7, 9, 10, 11]);
    assert_eq!(r.modifier, 0);
}

#[test]
fn three_downs_zero_padded() {
    let mut state = State::new();
    state.update_from_kb_input(17); // A
    state.update_from_kb_input(19); // D
    state.update_from_kb_input(21); // G
    assert_eq!(report_of(&state).keycodes, [4, 7, 10, 0, 0, 0]);
}

#[test]
fn seventh_key_evicts_oldest() {
    let mut state = State::new();
    for pos in 17u8..=22u8 {
        state.update_from_kb_input(pos);
    }
    // position 16 carries KeyboardX (usage 27); the oldest key, A, must go
    state.update_from_kb_input(16);
    assert_eq!(report_of(&state).keycodes, [22, 7, 9, 10, 11, 27]);
}

#[test]
fn evicted_modifier_contribution_is_removed() {
    let mut state = State::new();
    state.update_from_kb_input(88); // left shift first
    for pos in 17u8..=21u8 {
        state.update_from_kb_input(pos);
    }
    assert_eq!(report_of(&state).modifier, 0x02);
    state.update_from_kb_input(16); // seventh key evicts the shift
    let r = report_of(&state);
    assert_eq!(r.modifier, 0);
    assert_eq!(r.keycodes, [4, 22, 7, 9, 10, 27]);
}

#[test]
fn double_key_up_clears_everything() {
    let mut state = State::new();
    state.update_from_kb_input(17); // A
    state.update_from_kb_input(88); // left shift
    state.update_from_kb_input(19); // D
    assert_eq!(report_of(&state).modifier, 0x02);
    state.update_from_kb_input(17 | UP);
    let partial = report_of(&state);
    assert_eq!(partial.keycodes, [225, 7, 0, 0, 0, 0]);
    assert_eq!(partial.modifier, 0x02);
    state.update_from_kb_input(17 | UP);
    assert_eq!(report_of(&state), zero_report());
}

#[test]
fn modifier_bit_follows_press_state() {
    let mut state = State::new();
    state.update_from_kb_input(88); // left shift
    let r = report_of(&state);
    assert_eq!(r.modifier, 0x02);
    assert_eq!(r.keycodes, [225, 0, 0, 0, 0, 0]);
    state.update_from_kb_input(88 | UP);
    assert_eq!(report_of(&state).modifier, 0);
}

#[test]
fn each_modifier_key_sets_its_own_bit() {
    // left GUI (8), left control (26), left alt (35), left shift (88),
    // right shift (89)
    let cases: [(u8, u8); 5] = [(8, 0x08), (26, 0x01), (35, 0x04), (88, 0x02), (89, 0x20)];
    for (pos, bit) in cases {
        let mut state = State::new();
        state.update_from_kb_input(pos);
        assert_eq!(report_of(&state).modifier, bit);
        state.update_from_kb_input(pos | UP);
        assert_eq!(report_of(&state).modifier, 0);
    }
}

#[test]
fn two_modifiers_accumulate() {
    let mut state = State::new();
    state.update_from_kb_input(88); // left shift
    state.update_from_kb_input(26); // left control
    assert_eq!(report_of(&state).modifier, 0x03);
    state.update_from_kb_input(88 | UP);
    assert_eq!(report_of(&state).modifier, 0x01);
}

#[test]
fn unmapped_position_changes_nothing() {
    let mut state = State::new();
    state.update_from_kb_input(17);
    state.update_from_kb_input(88);
    let before = report_of(&state);
    state.update_from_kb_input(27); // gap in the table
    assert_eq!(report_of(&state), before);
    state.update_from_kb_input(27 | UP);
    assert_eq!(report_of(&state), before);
    state.update_from_kb_input(99); // past the last row
    assert_eq!(report_of(&state), before);
    state.update_from_kb_input(99 | UP);
    assert_eq!(report_of(&state), before);
}

#[test]
fn duplicate_key_down_changes_nothing() {
    let mut state = State::new();
    state.update_from_kb_input(17);
    let before = report_of(&state);
    state.update_from_kb_input(17);
    assert_eq!(report_of(&state), before);
}

#[test]
fn key_up_for_unheld_key_changes_no_report() {
    let mut state = State::new();
    state.update_from_kb_input(17); // A held
    let before = report_of(&state);
    state.update_from_kb_input(18 | UP); // S was never down
    assert_eq!(report_of(&state), before);
}

#[test]
fn reset_discards_session_state() {
    let mut state = State::new();
    state.update_from_kb_input(17);
    state.update_from_kb_input(88);
    state.reset();
    assert_eq!(report_of(&state), zero_report());
}

#[test]
fn report_reserved_and_leds_stay_zero() {
    let mut state = State::new();
    state.update_from_kb_input(17);
    let r = report_of(&state);
    assert_eq!(r.reserved, 0);
    assert_eq!(r.leds, 0);
}
