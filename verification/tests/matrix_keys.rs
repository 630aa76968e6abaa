//! Tests of the matrix lookup and the key-code data: positions, gaps, the
//! direction bit, and HID usage values.

use kb_driver::key_codes::KeyCode;

#[test]
fn mapped_positions_decode() {
    assert_eq!(KeyCode::try_from_matrix_key(0), Some(KeyCode::Keyboard1AndExclamation));
    assert_eq!(KeyCode::try_from_matrix_key(3), Some(KeyCode::KeyboardZ));
    assert_eq!(KeyCode::try_from_matrix_key(8), Some(KeyCode::KeyboardLeftGui));
    assert_eq!(KeyCode::try_from_matrix_key(17), Some(KeyCode::KeyboardA));
    assert_eq!(KeyCode::try_from_matrix_key(25), Some(KeyCode::KeyboardTab));
    assert_eq!(KeyCode::try_from_matrix_key(50), Some(KeyCode::KeyboardBackspace));
    assert_eq!(KeyCode::try_from_matrix_key(65), Some(KeyCode::KeyboardEnter));
    assert_eq!(KeyCode::try_from_matrix_key(80), Some(KeyCode::KeyboardDelete));
    assert_eq!(KeyCode::try_from_matrix_key(88), Some(KeyCode::KeyboardLeftShift));
    assert_eq!(KeyCode::try_from_matrix_key(89), Some(KeyCode::KeyboardRightShift));
}

#[test]
fn direction_bit_is_ignored_by_the_lookup() {
    assert_eq!(KeyCode::try_from_matrix_key(17 | 0x80), Some(KeyCode::KeyboardA));
    assert_eq!(KeyCode::try_from_matrix_key(88 | 0x80), Some(KeyCode::KeyboardLeftShift));
    assert_eq!(KeyCode::try_from_matrix_key(27 | 0x80), None);
}

#[test]
fn table_gaps_decode_to_nothing() {
    for pos in [27u8, 28, 29, 30, 31, 32, 33, 34, 40, 41, 42, 43, 67, 75, 84, 85, 86, 87] {
        assert_eq!(KeyCode::try_from_matrix_key(pos), None, "position {pos}");
    }
}

#[test]
fn positions_past_the_last_row_decode_to_nothing() {
    for pos in 90u8..=127u8 {
        assert_eq!(KeyCode::try_from_matrix_key(pos), None, "position {pos}");
    }
}

#[test]
fn special_function_cells_carry_the_no_key_sentinel() {
    for pos in [51u8, 59, 66, 74] {
        assert_eq!(KeyCode::try_from_matrix_key(pos), Some(KeyCode::KeyBoardNoKey));
    }
}

#[test]
fn hid_codes_match_the_usage_table() {
    assert_eq!(KeyCode::KeyBoardNoKey.hid_code(), 0);
    assert_eq!(KeyCode::KeyboardA.hid_code(), 4);
    assert_eq!(KeyCode::KeyboardZ.hid_code(), 29);
    assert_eq!(KeyCode::Keyboard1AndExclamation.hid_code(), 30);
    assert_eq!(KeyCode::KeyboardEnter.hid_code(), 40);
    assert_eq!(KeyCode::KeyboardSpacebar.hid_code(), 44);
    assert_eq!(KeyCode::KeypadHexadecimal.hid_code(), 221);
    assert_eq!(KeyCode::KeyboardLeftControl.hid_code(), 224);
    assert_eq!(KeyCode::KeyboardLeftShift.hid_code(), 225);
    assert_eq!(KeyCode::KeyboardRightGui.hid_code(), 231);
}
