use vstd::prelude::*;

use crate::key_codes::KeyCode;

verus! {

/// The key codes at each coordinate of the physical key matrix, row by row.
///
/// |     | X0        | X1         | X2          | X3          | X4 | X5 | X6 | X7      |
/// |-----|-----------|------------|-------------|-------------|----|----|----|---------|
/// | Y0  | 1         | 2          | 3           | Z           | 4  | 5  | 6  | 7       |
/// | Y1  | CMD       | Q          | W           | E           | R  | T  | Y  | `       |
/// | Y2  | X         | A          | S           | D           | F  | G  | H  | SPACE 1 |
/// | Y3  | CAPS LOCK | TAB        | CTRL        |             |    |    |    |         |
/// | Y4  |           |            |             | ALT         |    |    |    |         |
/// | Y5  |           |            |             |             | C  | V  | B  | N       |
/// | Y6  | -         | =          | BACKSPACE   | SPECIAL FN1 | 8  | 9  | 0  | SPACE 2 |
/// | Y7  | [         | ]          | \          | SPECIAL FN2 | U  | I  | O  | P       |
/// | Y8  | '         | ENTER      | SPECIAL FN3 |             | J  | K  | L  | ;       |
/// | Y9  | /         | UP ARROW   | SPECIAL FN4 |             | M  | ,  | .  | DONE    |
/// | Y10 | DEL       | LEFT ARROW | DOWN ARROW  | RIGHT ARROW |    |    |    |         |
/// | Y11 | LSHIFT    | RSHIFT     |             |             |    |    |    |         |
///
/// Unpopulated cells, and every position past the last row, are gaps: a byte
/// naming one is a device-protocol anomaly and decodes to no key code.
pub open spec fn matrix_slot(pos: u8) -> Option<KeyCode> {
    match pos {
        0u8 => Some(KeyCode::Keyboard1AndExclamation),
        1u8 => Some(KeyCode::Keyboard2AndAt),
        2u8 => Some(KeyCode::Keyboard3AndSharp),
        3u8 => Some(KeyCode::KeyboardZ),
        4u8 => Some(KeyCode::Keyboard4AndDollarSign),
        5u8 => Some(KeyCode::Keyboard5AndPercent),
        6u8 => Some(KeyCode::Keyboard6AndCaret),
        7u8 => Some(KeyCode::Keyboard7AndAmpersand),
        8u8 => Some(KeyCode::KeyboardLeftGui),
        9u8 => Some(KeyCode::KeyboardQ),
        10u8 => Some(KeyCode::KeyboardW),
        11u8 => Some(KeyCode::KeyboardE),
        12u8 => Some(KeyCode::KeyboardR),
        13u8 => Some(KeyCode::KeyboardT),
        14u8 => Some(KeyCode::KeyboardY),
        15u8 => Some(KeyCode::KeyboardGraveAccentAndTilde),
        16u8 => Some(KeyCode::KeyboardX),
        17u8 => Some(KeyCode::KeyboardA),
        18u8 => Some(KeyCode::KeyboardS),
        19u8 => Some(KeyCode::KeyboardD),
        20u8 => Some(KeyCode::KeyboardF),
        21u8 => Some(KeyCode::KeyboardG),
        22u8 => Some(KeyCode::KeyboardH),
        23u8 => Some(KeyCode::KeyboardSpacebar),
        24u8 => Some(KeyCode::KeyboardCapsLock),
        25u8 => Some(KeyCode::KeyboardTab),
        26u8 => Some(KeyCode::KeyboardLeftControl),
        35u8 => Some(KeyCode::KeyboardLeftAlt),
        44u8 => Some(KeyCode::KeyboardC),
        45u8 => Some(KeyCode::KeyboardV),
        46u8 => Some(KeyCode::KeyboardB),
        47u8 => Some(KeyCode::KeyboardN),
        48u8 => Some(KeyCode::KeyboardMinusAndUnderscore),
        49u8 => Some(KeyCode::KeyboardEqualsAndPlus),
        50u8 => Some(KeyCode::KeyboardBackspace),
        51u8 => Some(KeyCode::KeyBoardNoKey),
        52u8 => Some(KeyCode::Keyboard8AndAsterisk),
        53u8 => Some(KeyCode::Keyboard9AndRightParentheses),
        54u8 => Some(KeyCode::Keyboard0AndLeftParentheses),
        55u8 => Some(KeyCode::KeyboardSpacebar),
        56u8 => Some(KeyCode::KeyboardLeftSquareBracketAndCurlyBracket),
        57u8 => Some(KeyCode::KeyboardRightSquareBracketAndCurlyBracket),
        58u8 => Some(KeyCode::KeyboardBackslashAndPipe),
        59u8 => Some(KeyCode::KeyBoardNoKey),
        60u8 => Some(KeyCode::KeyboardU),
        61u8 => Some(KeyCode::KeyboardI),
        62u8 => Some(KeyCode::KeyboardO),
        63u8 => Some(KeyCode::KeyboardP),
        64u8 => Some(KeyCode::KeyboardSingleAndDoubleQuotes),
        65u8 => Some(KeyCode::KeyboardEnter),
        66u8 => Some(KeyCode::KeyBoardNoKey),
        68u8 => Some(KeyCode::KeyboardJ),
        69u8 => Some(KeyCode::KeyboardK),
        70u8 => Some(KeyCode::KeyboardL),
        71u8 => Some(KeyCode::KeyboardSemicolonAndColon),
        72u8 => Some(KeyCode::KeyboardSlashAndQuestionMark),
        73u8 => Some(KeyCode::KeyboardUpArrow),
        74u8 => Some(KeyCode::KeyBoardNoKey),
        76u8 => Some(KeyCode::KeyboardM),
        77u8 => Some(KeyCode::KeyboardCommaAndLessThan),
        78u8 => Some(KeyCode::KeyboardPeriodAndGreaterThan),
        79u8 => Some(KeyCode::KeyboardEnter),
        80u8 => Some(KeyCode::KeyboardDelete),
        81u8 => Some(KeyCode::KeyboardLeftArrow),
        82u8 => Some(KeyCode::KeyboardDownArrow),
        83u8 => Some(KeyCode::KeyboardRightArrow),
        88u8 => Some(KeyCode::KeyboardLeftShift),
        89u8 => Some(KeyCode::KeyboardRightShift),
        _ => None,
    }
}

/// Looks the position up in the fixed matrix table.
pub(crate) fn matrix_lookup(pos: u8) -> (r: Option<KeyCode>)
    ensures
        r == matrix_slot(pos),
{
    match pos {
        0u8 => Some(KeyCode::Keyboard1AndExclamation),
        1u8 => Some(KeyCode::Keyboard2AndAt),
        2u8 => Some(KeyCode::Keyboard3AndSharp),
        3u8 => Some(KeyCode::KeyboardZ),
        4u8 => Some(KeyCode::Keyboard4AndDollarSign),
        5u8 => Some(KeyCode::Keyboard5AndPercent),
        6u8 => Some(KeyCode::Keyboard6AndCaret),
        7u8 => Some(KeyCode::Keyboard7AndAmpersand),
        8u8 => Some(KeyCode::KeyboardLeftGui),
        9u8 => Some(KeyCode::KeyboardQ),
        10u8 => Some(KeyCode::KeyboardW),
        11u8 => Some(KeyCode::KeyboardE),
        12u8 => Some(KeyCode::KeyboardR),
        13u8 => Some(KeyCode::KeyboardT),
        14u8 => Some(KeyCode::KeyboardY),
        15u8 => Some(KeyCode::KeyboardGraveAccentAndTilde),
        16u8 => Some(KeyCode::KeyboardX),
        17u8 => Some(KeyCode::KeyboardA),
        18u8 => Some(KeyCode::KeyboardS),
        19u8 => Some(KeyCode::KeyboardD),
        20u8 => Some(KeyCode::KeyboardF),
        21u8 => Some(KeyCode::KeyboardG),
        22u8 => Some(KeyCode::KeyboardH),
        23u8 => Some(KeyCode::KeyboardSpacebar),
        24u8 => Some(KeyCode::KeyboardCapsLock),
        25u8 => Some(KeyCode::KeyboardTab),
        26u8 => Some(KeyCode::KeyboardLeftControl),
        35u8 => Some(KeyCode::KeyboardLeftAlt),
        44u8 => Some(KeyCode::KeyboardC),
        45u8 => Some(KeyCode::KeyboardV),
        46u8 => Some(KeyCode::KeyboardB),
        47u8 => Some(KeyCode::KeyboardN),
        48u8 => Some(KeyCode::KeyboardMinusAndUnderscore),
        49u8 => Some(KeyCode::KeyboardEqualsAndPlus),
        50u8 => Some(KeyCode::KeyboardBackspace),
        51u8 => Some(KeyCode::KeyBoardNoKey),
        52u8 => Some(KeyCode::Keyboard8AndAsterisk),
        53u8 => Some(KeyCode::Keyboard9AndRightParentheses),
        54u8 => Some(KeyCode::Keyboard0AndLeftParentheses),
        55u8 => Some(KeyCode::KeyboardSpacebar),
        56u8 => Some(KeyCode::KeyboardLeftSquareBracketAndCurlyBracket),
        57u8 => Some(KeyCode::KeyboardRightSquareBracketAndCurlyBracket),
        58u8 => Some(KeyCode::KeyboardBackslashAndPipe),
        59u8 => Some(KeyCode::KeyBoardNoKey),
        60u8 => Some(KeyCode::KeyboardU),
        61u8 => Some(KeyCode::KeyboardI),
        62u8 => Some(KeyCode::KeyboardO),
        63u8 => Some(KeyCode::KeyboardP),
        64u8 => Some(KeyCode::KeyboardSingleAndDoubleQuotes),
        65u8 => Some(KeyCode::KeyboardEnter),
        66u8 => Some(KeyCode::KeyBoardNoKey),
        68u8 => Some(KeyCode::KeyboardJ),
        69u8 => Some(KeyCode::KeyboardK),
        70u8 => Some(KeyCode::KeyboardL),
        71u8 => Some(KeyCode::KeyboardSemicolonAndColon),
        72u8 => Some(KeyCode::KeyboardSlashAndQuestionMark),
        73u8 => Some(KeyCode::KeyboardUpArrow),
        74u8 => Some(KeyCode::KeyBoardNoKey),
        76u8 => Some(KeyCode::KeyboardM),
        77u8 => Some(KeyCode::KeyboardCommaAndLessThan),
        78u8 => Some(KeyCode::KeyboardPeriodAndGreaterThan),
        79u8 => Some(KeyCode::KeyboardEnter),
        80u8 => Some(KeyCode::KeyboardDelete),
        81u8 => Some(KeyCode::KeyboardLeftArrow),
        82u8 => Some(KeyCode::KeyboardDownArrow),
        83u8 => Some(KeyCode::KeyboardRightArrow),
        88u8 => Some(KeyCode::KeyboardLeftShift),
        89u8 => Some(KeyCode::KeyboardRightShift),
        _ => None,
    }
}

} // verus!
