use vstd::prelude::*;

use crate::matrix::{matrix_lookup, matrix_slot};

verus! {

/// USB-HID key codes: one variant for each usage in the keyboard usage table,
/// plus the no-key sentinel.
#[derive(Clone, Copy, PartialEq, Eq, Structural, Debug)]
pub enum KeyCode {
    /// Keyboard no key
    KeyBoardNoKey,
    /// Keyboard ErrorRollOver
    KeyboardErrorRollOver,
    /// Keyboard POSTFail
    KeyboardPostFail,
    /// Keyboard ErrorUndefined
    KeyboardErrorUndefined,
    /// Keyboard a and A
    KeyboardA,
    /// Keyboard b and B
    KeyboardB,
    /// Keyboard c and C
    KeyboardC,
    /// Keyboard d and D
    KeyboardD,
    /// Keyboard e and E
    KeyboardE,
    /// Keyboard f and F
    KeyboardF,
    /// Keyboard g and G
    KeyboardG,
    /// Keyboard h and H
    KeyboardH,
    /// Keyboard i and I
    KeyboardI,
    /// Keyboard j and J
    KeyboardJ,
    /// Keyboard k and K
    KeyboardK,
    /// Keyboard l and L
    KeyboardL,
    /// Keyboard m and M
    KeyboardM,
    /// Keyboard n and N
    KeyboardN,
    /// Keyboard o and O
    KeyboardO,
    /// Keyboard p and P
    KeyboardP,
    /// Keyboard q and Q
    KeyboardQ,
    /// Keyboard r and R
    KeyboardR,
    /// Keyboard s and S
    KeyboardS,
    /// Keyboard t and T
    KeyboardT,
    /// Keyboard u and U
    KeyboardU,
    /// Keyboard v and V
    KeyboardV,
    /// Keyboard w and W
    KeyboardW,
    /// Keyboard x and X
    KeyboardX,
    /// Keyboard y and Y
    KeyboardY,
    /// Keyboard z and Z
    KeyboardZ,
    /// Keyboard 1 and !
    Keyboard1AndExclamation,
    /// Keyboard 2 and @
    Keyboard2AndAt,
    /// Keyboard 3 and #
    Keyboard3AndSharp,
    /// Keyboard 4 and $
    Keyboard4AndDollarSign,
    /// Keyboard 5 and %
    Keyboard5AndPercent,
    /// Keyboard 6 and ^
    Keyboard6AndCaret,
    /// Keyboard 7 and &
    Keyboard7AndAmpersand,
    /// Keyboard 8 and *
    Keyboard8AndAsterisk,
    /// Keyboard 9 and (
    Keyboard9AndRightParentheses,
    /// Keyboard 0 and )
    Keyboard0AndLeftParentheses,
    /// Keyboard Return (ENTER)
    KeyboardEnter,
    /// Keyboard ESCAPE
    KeyboardEscape,
    /// Keyboard DELETE (Backspace)
    KeyboardBackspace,
    /// Keyboard Tab
    KeyboardTab,
    /// Keyboard Spacebar
    KeyboardSpacebar,
    /// Keyboard - and (underscore)
    KeyboardMinusAndUnderscore,
    /// Keyboard = and +
    KeyboardEqualsAndPlus,
    /// Keyboard [ and {
    KeyboardLeftSquareBracketAndCurlyBracket,
    /// Keyboard ] and }
    KeyboardRightSquareBracketAndCurlyBracket,
    /// Keyboard \ and |
    KeyboardBackslashAndPipe,
    /// Keyboard ; and :
    KeyboardSemicolonAndColon,
    /// Keyboard ' and "
    KeyboardSingleAndDoubleQuotes,
    /// Keyboard Grave Accent and Tilde
    KeyboardGraveAccentAndTilde,
    /// Keyboard , and <
    KeyboardCommaAndLessThan,
    /// Keyboard . and >
    KeyboardPeriodAndGreaterThan,
    /// Keyboard / and ?
    KeyboardSlashAndQuestionMark,
    /// Keyboard Caps Lock
    KeyboardCapsLock,
    /// Keyboard F1
    KeyboardF1,
    /// Keyboard F2
    KeyboardF2,
    /// Keyboard F3
    KeyboardF3,
    /// Keyboard F4
    KeyboardF4,
    /// Keyboard F5
    KeyboardF5,
    /// Keyboard F6
    KeyboardF6,
    /// Keyboard F7
    KeyboardF7,
    /// Keyboard F8
    KeyboardF8,
    /// Keyboard F9
    KeyboardF9,
    /// Keyboard F10
    KeyboardF10,
    /// Keyboard F11
    KeyboardF11,
    /// Keyboard F12
    KeyboardF12,
    /// Keyboard PrintScreen
    KeyboardPrintScreen,
    /// Keyboard Scroll Lock
    KeyboardScrollLock,
    /// Keyboard Pause
    KeyboardPause,
    /// Keyboard Insert
    KeyboardInsert,
    /// Keyboard Home
    KeyboardHome,
    /// Keyboard PageUp
    KeyboardPageUp,
    /// Keyboard Delete Forward
    KeyboardDelete,
    /// Keyboard End
    KeyboardEnd,
    /// Keyboard PageDown
    KeyboardPageDown,
    /// Keyboard RightArrow
    KeyboardRightArrow,
    /// Keyboard LeftArrow
    KeyboardLeftArrow,
    /// Keyboard DownArrow
    KeyboardDownArrow,
    /// Keyboard UpArrow
    KeyboardUpArrow,
    /// Keypad Num Lock and Clear
    KeypadNumLockAndClear,
    /// Keypad /
    KeypadSlash,
    /// Keypad *
    KeypadAsterisk,
    /// Keypad -
    KeypadMinus,
    /// Keypad +
    KeypadPlus,
    /// Keypad ENTER
    KeypadEnter,
    /// Keypad 1 and End
    Keypad1AndEnd,
    /// Keypad 2 and Down Arrow
    Keypad2AndDownArrow,
    /// Keypad 3 and PageDn
    Keypad3AndPageDn,
    /// Keypad 4 and Left Arrow
    Keypad4AndLeftArrow,
    /// Keypad 5
    Keypad5,
    /// Keypad 6 and Right Arrow
    Keypad6AndRightArrow,
    /// Keypad 7 and Home
    Keypad7AndHome,
    /// Keypad 8 and Up Arrow
    Keypad8AndUpArrow,
    /// Keypad 9 and PageUp
    Keypad9AndPageUp,
    /// Keypad 0 and Insert
    Keypad0AndInsert,
    /// Keypad . and Delete
    KeypadPeriodAndDelete,
    /// Keyboard Non-US \ and |
    KeyboardNonUsBackslashAndPipe,
    /// Keyboard Application
    KeyboardApplication,
    /// Keyboard Power
    KeyboardPower,
    /// Keypad =
    KeypadEquals,
    /// Keyboard F13
    KeyboardF13,
    /// Keyboard F14
    KeyboardF14,
    /// Keyboard F15
    KeyboardF15,
    /// Keyboard F16
    KeyboardF16,
    /// Keyboard F17
    KeyboardF17,
    /// Keyboard F18
    KeyboardF18,
    /// Keyboard F19
    KeyboardF19,
    /// Keyboard F20
    KeyboardF20,
    /// Keyboard F21
    KeyboardF21,
    /// Keyboard F22
    KeyboardF22,
    /// Keyboard F23
    KeyboardF23,
    /// Keyboard F24
    KeyboardF24,
    /// Keyboard Execute
    KeyboardExecute,
    /// Keyboard Help
    KeyboardHelp,
    /// Keyboard Menu
    KeyboardMenu,
    /// Keyboard Select
    KeyboardSelect,
    /// Keyboard Stop
    KeyboardStop,
    /// Keyboard Again
    KeyboardAgain,
    /// Keyboard Undo
    KeyboardUndo,
    /// Keyboard Cut
    KeyboardCut,
    /// Keyboard Copy
    KeyboardCopy,
    /// Keyboard Paste
    KeyboardPaste,
    /// Keyboard Find
    KeyboardFind,
    /// Keyboard Mute
    KeyboardMute,
    /// Keyboard Volume Up
    KeyboardVolumeUp,
    /// Keyboard Volume Down
    KeyboardVolumeDown,
    /// Keyboard Locking Caps Lock
    KeyboardLockingCapsLock,
    /// Keyboard Locking Num Lock
    KeyboardLockingNumLock,
    /// Keyboard Locking Scroll Lock
    KeyboardLockingScrollLock,
    /// Keypad Comma
    KeypadComma,
    /// Keypad Equal Sign
    KeypadEqualSign,
    /// Keyboard International1
    KeyboardInternational1,
    /// Keyboard International2
    KeyboardInternational2,
    /// Keyboard International3
    KeyboardInternational3,
    /// Keyboard International4
    KeyboardInternational4,
    /// Keyboard International5
    KeyboardInternational5,
    /// Keyboard International6
    KeyboardInternational6,
    /// Keyboard International7
    KeyboardInternational7,
    /// Keyboard International8
    KeyboardInternational8,
    /// Keyboard International9
    KeyboardInternational9,
    /// Keyboard LANG1
    KeyboardLang1,
    /// Keyboard LANG2
    KeyboardLang2,
    /// Keyboard LANG3
    KeyboardLang3,
    /// Keyboard LANG4
    KeyboardLang4,
    /// Keyboard LANG5
    KeyboardLang5,
    /// Keyboard LANG6
    KeyboardLang6,
    /// Keyboard LANG7
    KeyboardLang7,
    /// Keyboard LANG8
    KeyboardLang8,
    /// Keyboard LANG9
    KeyboardLang9,
    /// Keyboard Alternate Erase
    KeyboardAlternateErase,
    /// Keyboard SysReq/Attention
    KeyboardSysReqAttention,
    /// Keyboard Cancel
    KeyboardCancel,
    /// Keyboard Clear
    KeyboardClear,
    /// Keyboard Prior
    KeyboardPrior,
    /// Keyboard Return
    KeyboardReturn,
    /// Keyboard Separator
    KeyboardSeparator,
    /// Keyboard Out
    KeyboardOut,
    /// Keyboard Oper
    KeyboardOper,
    /// Keyboard Clear/Again
    KeyboardClearAgain,
    /// Keyboard CrSel/Props
    KeyboardCrSelProps,
    /// Keyboard ExSel
    KeyboardExSel,
    /// Keypad 00
    Keypad00,
    /// Keypad 000
    Keypad000,
    /// Thousands Separator
    ThousandsSeparator,
    /// Decimal Separator
    DecimalSeparator,
    /// Currency Unit
    CurrencyUnit,
    /// Currency Sub-unit
    CurrencySubUnit,
    /// Keypad (
    KeypadRightParentheses,
    /// Keypad )
    KeypadLeftParentheses,
    /// Keypad {
    KeypadLeftCurlyBracket,
    /// Keypad }
    KeypadRightCurlyBracket,
    /// Keypad Tab
    KeypadTab,
    /// Keypad Backspace
    KeypadBackspace,
    /// Keypad A
    KeypadA,
    /// Keypad B
    KeypadB,
    /// Keypad C
    KeypadC,
    /// Keypad D
    KeypadD,
    /// Keypad E
    KeypadE,
    /// Keypad F
    KeypadF,
    /// Keypad XOR
    KeypadXOR,
    /// Keypad ^
    KeypadCaret,
    /// Keypad %
    KeypadPercent,
    /// Keypad <
    KeypadLessThan,
    /// Keypad >
    KeypadGreaterThan,
    /// Keypad &
    KeypadAmpersand,
    /// Keypad &&
    KeypadDoubleAmpersand,
    /// Keypad |
    KeypadPipe,
    /// Keypad ||
    KeypadDoublePipe,
    /// Keypad :
    KeypadColon,
    /// Keypad #
    KeypadSharp,
    /// Keypad Space
    KeypadSpace,
    /// Keypad @
    KeypadAt,
    /// Keypad !
    KeypadExclamation,
    /// Keypad Memory Store
    KeypadMemoryStore,
    /// Keypad Memory Recall
    KeypadMemoryRecall,
    /// Keypad Memory Clear
    KeypadMemoryClear,
    /// Keypad Memory Add
    KeypadMemoryAdd,
    /// Keypad Memory Subtract
    KeypadMemorySubtract,
    /// Keypad Memory Multiply
    KeypadMemoryMultiply,
    /// Keypad Memory Divide
    KeypadMemoryDivide,
    /// Keypad +/-
    KeypadPlusMinus,
    /// Keypad Clear
    KeypadClear,
    /// Keypad Clear Entry
    KeypadClearEntry,
    /// Keypad Binary
    KeypadBinary,
    /// Keypad Octal
    KeypadOctal,
    /// Keypad Decimal
    KeypadDecimal,
    /// Keypad Hexadecimal
    KeypadHexadecimal,
    /// Keyboard LeftControl
    KeyboardLeftControl,
    /// Keyboard LeftShift
    KeyboardLeftShift,
    /// Keyboard LeftAlt
    KeyboardLeftAlt,
    /// Keyboard Left GUI
    /// A.K.A. Meta or Super or Windows or CMD
    KeyboardLeftGui,
    /// Keyboard RightControl
    KeyboardRightControl,
    /// Keyboard RightShift
    KeyboardRightShift,
    /// Keyboard RightAlt
    KeyboardRightAlt,
    /// Keyboard Right GUI
    /// A.K.A. Meta or Super or Windows or CMD
    KeyboardRightGui,
}

/// The HID usage value that each key code stands for in a report.
pub open spec fn hid_code_spec(key: KeyCode) -> u8 {
    match key {
        KeyCode::KeyBoardNoKey => 0,
        KeyCode::KeyboardErrorRollOver => 1,
        KeyCode::KeyboardPostFail => 2,
        KeyCode::KeyboardErrorUndefined => 3,
        KeyCode::KeyboardA => 4,
        KeyCode::KeyboardB => 5,
        KeyCode::KeyboardC => 6,
        KeyCode::KeyboardD => 7,
        KeyCode::KeyboardE => 8,
        KeyCode::KeyboardF => 9,
        KeyCode::KeyboardG => 10,
        KeyCode::KeyboardH => 11,
        KeyCode::KeyboardI => 12,
        KeyCode::KeyboardJ => 13,
        KeyCode::KeyboardK => 14,
        KeyCode::KeyboardL => 15,
        KeyCode::KeyboardM => 16,
        KeyCode::KeyboardN => 17,
        KeyCode::KeyboardO => 18,
        KeyCode::KeyboardP => 19,
        KeyCode::KeyboardQ => 20,
        KeyCode::KeyboardR => 21,
        KeyCode::KeyboardS => 22,
        KeyCode::KeyboardT => 23,
        KeyCode::KeyboardU => 24,
        KeyCode::KeyboardV => 25,
        KeyCode::KeyboardW => 26,
        KeyCode::KeyboardX => 27,
        KeyCode::KeyboardY => 28,
        KeyCode::KeyboardZ => 29,
        KeyCode::Keyboard1AndExclamation => 30,
        KeyCode::Keyboard2AndAt => 31,
        KeyCode::Keyboard3AndSharp => 32,
        KeyCode::Keyboard4AndDollarSign => 33,
        KeyCode::Keyboard5AndPercent => 34,
        KeyCode::Keyboard6AndCaret => 35,
        KeyCode::Keyboard7AndAmpersand => 36,
        KeyCode::Keyboard8AndAsterisk => 37,
        KeyCode::Keyboard9AndRightParentheses => 38,
        KeyCode::Keyboard0AndLeftParentheses => 39,
        KeyCode::KeyboardEnter => 40,
        KeyCode::KeyboardEscape => 41,
        KeyCode::KeyboardBackspace => 42,
        KeyCode::KeyboardTab => 43,
        KeyCode::KeyboardSpacebar => 44,
        KeyCode::KeyboardMinusAndUnderscore => 45,
        KeyCode::KeyboardEqualsAndPlus => 46,
        KeyCode::KeyboardLeftSquareBracketAndCurlyBracket => 47,
        KeyCode::KeyboardRightSquareBracketAndCurlyBracket => 48,
        KeyCode::KeyboardBackslashAndPipe => 49,
        KeyCode::KeyboardSemicolonAndColon => 51,
        KeyCode::KeyboardSingleAndDoubleQuotes => 52,
        KeyCode::KeyboardGraveAccentAndTilde => 53,
        KeyCode::KeyboardCommaAndLessThan => 54,
        KeyCode::KeyboardPeriodAndGreaterThan => 55,
        KeyCode::KeyboardSlashAndQuestionMark => 56,
        KeyCode::KeyboardCapsLock => 57,
        KeyCode::KeyboardF1 => 58,
        KeyCode::KeyboardF2 => 59,
        KeyCode::KeyboardF3 => 60,
        KeyCode::KeyboardF4 => 61,
        KeyCode::KeyboardF5 => 62,
        KeyCode::KeyboardF6 => 63,
        KeyCode::KeyboardF7 => 64,
        KeyCode::KeyboardF8 => 65,
        KeyCode::KeyboardF9 => 66,
        KeyCode::KeyboardF10 => 67,
        KeyCode::KeyboardF11 => 68,
        KeyCode::KeyboardF12 => 69,
        KeyCode::KeyboardPrintScreen => 70,
        KeyCode::KeyboardScrollLock => 71,
        KeyCode::KeyboardPause => 72,
        KeyCode::KeyboardInsert => 73,
        KeyCode::KeyboardHome => 74,
        KeyCode::KeyboardPageUp => 75,
        KeyCode::KeyboardDelete => 76,
        KeyCode::KeyboardEnd => 77,
        KeyCode::KeyboardPageDown => 78,
        KeyCode::KeyboardRightArrow => 79,
        KeyCode::KeyboardLeftArrow => 80,
        KeyCode::KeyboardDownArrow => 81,
        KeyCode::KeyboardUpArrow => 82,
        KeyCode::KeypadNumLockAndClear => 83,
        KeyCode::KeypadSlash => 84,
        KeyCode::KeypadAsterisk => 85,
        KeyCode::KeypadMinus => 86,
        KeyCode::KeypadPlus => 87,
        KeyCode::KeypadEnter => 88,
        KeyCode::Keypad1AndEnd => 89,
        KeyCode::Keypad2AndDownArrow => 90,
        KeyCode::Keypad3AndPageDn => 91,
        KeyCode::Keypad4AndLeftArrow => 92,
        KeyCode::Keypad5 => 93,
        KeyCode::Keypad6AndRightArrow => 94,
        KeyCode::Keypad7AndHome => 95,
        KeyCode::Keypad8AndUpArrow => 96,
        KeyCode::Keypad9AndPageUp => 97,
        KeyCode::Keypad0AndInsert => 98,
        KeyCode::KeypadPeriodAndDelete => 99,
        KeyCode::KeyboardNonUsBackslashAndPipe => 100,
        KeyCode::KeyboardApplication => 101,
        KeyCode::KeyboardPower => 102,
        KeyCode::KeypadEquals => 103,
        KeyCode::KeyboardF13 => 104,
        KeyCode::KeyboardF14 => 105,
        KeyCode::KeyboardF15 => 106,
        KeyCode::KeyboardF16 => 107,
        KeyCode::KeyboardF17 => 108,
        KeyCode::KeyboardF18 => 109,
        KeyCode::KeyboardF19 => 110,
        KeyCode::KeyboardF20 => 111,
        KeyCode::KeyboardF21 => 112,
        KeyCode::KeyboardF22 => 113,
        KeyCode::KeyboardF23 => 114,
        KeyCode::KeyboardF24 => 115,
        KeyCode::KeyboardExecute => 116,
        KeyCode::KeyboardHelp => 117,
        KeyCode::KeyboardMenu => 118,
        KeyCode::KeyboardSelect => 119,
        KeyCode::KeyboardStop => 120,
        KeyCode::KeyboardAgain => 121,
        KeyCode::KeyboardUndo => 122,
        KeyCode::KeyboardCut => 123,
        KeyCode::KeyboardCopy => 124,
        KeyCode::KeyboardPaste => 125,
        KeyCode::KeyboardFind => 126,
        KeyCode::KeyboardMute => 127,
        KeyCode::KeyboardVolumeUp => 128,
        KeyCode::KeyboardVolumeDown => 129,
        KeyCode::KeyboardLockingCapsLock => 130,
        KeyCode::KeyboardLockingNumLock => 131,
        KeyCode::KeyboardLockingScrollLock => 132,
        KeyCode::KeypadComma => 133,
        KeyCode::KeypadEqualSign => 134,
        KeyCode::KeyboardInternational1 => 135,
        KeyCode::KeyboardInternational2 => 136,
        KeyCode::KeyboardInternational3 => 137,
        KeyCode::KeyboardInternational4 => 138,
        KeyCode::KeyboardInternational5 => 139,
        KeyCode::KeyboardInternational6 => 140,
        KeyCode::KeyboardInternational7 => 141,
        KeyCode::KeyboardInternational8 => 142,
        KeyCode::KeyboardInternational9 => 143,
        KeyCode::KeyboardLang1 => 144,
        KeyCode::KeyboardLang2 => 145,
        KeyCode::KeyboardLang3 => 146,
        KeyCode::KeyboardLang4 => 147,
        KeyCode::KeyboardLang5 => 148,
        KeyCode::KeyboardLang6 => 149,
        KeyCode::KeyboardLang7 => 150,
        KeyCode::KeyboardLang8 => 151,
        KeyCode::KeyboardLang9 => 152,
        KeyCode::KeyboardAlternateErase => 153,
        KeyCode::KeyboardSysReqAttention => 154,
        KeyCode::KeyboardCancel => 155,
        KeyCode::KeyboardClear => 156,
        KeyCode::KeyboardPrior => 157,
        KeyCode::KeyboardReturn => 158,
        KeyCode::KeyboardSeparator => 159,
        KeyCode::KeyboardOut => 160,
        KeyCode::KeyboardOper => 161,
        KeyCode::KeyboardClearAgain => 162,
        KeyCode::KeyboardCrSelProps => 163,
        KeyCode::KeyboardExSel => 164,
        KeyCode::Keypad00 => 176,
        KeyCode::Keypad000 => 177,
        KeyCode::ThousandsSeparator => 178,
        KeyCode::DecimalSeparator => 179,
        KeyCode::CurrencyUnit => 180,
        KeyCode::CurrencySubUnit => 181,
        KeyCode::KeypadRightParentheses => 182,
        KeyCode::KeypadLeftParentheses => 183,
        KeyCode::KeypadLeftCurlyBracket => 184,
        KeyCode::KeypadRightCurlyBracket => 185,
        KeyCode::KeypadTab => 186,
        KeyCode::KeypadBackspace => 187,
        KeyCode::KeypadA => 188,
        KeyCode::KeypadB => 189,
        KeyCode::KeypadC => 190,
        KeyCode::KeypadD => 191,
        KeyCode::KeypadE => 192,
        KeyCode::KeypadF => 193,
        KeyCode::KeypadXOR => 194,
        KeyCode::KeypadCaret => 195,
        KeyCode::KeypadPercent => 196,
        KeyCode::KeypadLessThan => 197,
        KeyCode::KeypadGreaterThan => 198,
        KeyCode::KeypadAmpersand => 199,
        KeyCode::KeypadDoubleAmpersand => 200,
        KeyCode::KeypadPipe => 201,
        KeyCode::KeypadDoublePipe => 202,
        KeyCode::KeypadColon => 203,
        KeyCode::KeypadSharp => 204,
        KeyCode::KeypadSpace => 205,
        KeyCode::KeypadAt => 206,
        KeyCode::KeypadExclamation => 207,
        KeyCode::KeypadMemoryStore => 208,
        KeyCode::KeypadMemoryRecall => 209,
        KeyCode::KeypadMemoryClear => 210,
        KeyCode::KeypadMemoryAdd => 211,
        KeyCode::KeypadMemorySubtract => 212,
        KeyCode::KeypadMemoryMultiply => 213,
        KeyCode::KeypadMemoryDivide => 214,
        KeyCode::KeypadPlusMinus => 215,
        KeyCode::KeypadClear => 216,
        KeyCode::KeypadClearEntry => 217,
        KeyCode::KeypadBinary => 218,
        KeyCode::KeypadOctal => 219,
        KeyCode::KeypadDecimal => 220,
        KeyCode::KeypadHexadecimal => 221,
        KeyCode::KeyboardLeftControl => 224,
        KeyCode::KeyboardLeftShift => 225,
        KeyCode::KeyboardLeftAlt => 226,
        KeyCode::KeyboardLeftGui => 227,
        KeyCode::KeyboardRightControl => 228,
        KeyCode::KeyboardRightShift => 229,
        KeyCode::KeyboardRightAlt => 230,
        KeyCode::KeyboardRightGui => 231,
    }
}

impl KeyCode {
    /// The HID usage value of this key code, as placed in a report slot.
    pub fn hid_code(self) -> (r: u8)
        ensures
            r == hid_code_spec(self),
    {
        match self {
            KeyCode::KeyBoardNoKey => 0,
            KeyCode::KeyboardErrorRollOver => 1,
            KeyCode::KeyboardPostFail => 2,
            KeyCode::KeyboardErrorUndefined => 3,
            KeyCode::KeyboardA => 4,
            KeyCode::KeyboardB => 5,
            KeyCode::KeyboardC => 6,
            KeyCode::KeyboardD => 7,
            KeyCode::KeyboardE => 8,
            KeyCode::KeyboardF => 9,
            KeyCode::KeyboardG => 10,
            KeyCode::KeyboardH => 11,
            KeyCode::KeyboardI => 12,
            KeyCode::KeyboardJ => 13,
            KeyCode::KeyboardK => 14,
            KeyCode::KeyboardL => 15,
            KeyCode::KeyboardM => 16,
            KeyCode::KeyboardN => 17,
            KeyCode::KeyboardO => 18,
            KeyCode::KeyboardP => 19,
            KeyCode::KeyboardQ => 20,
            KeyCode::KeyboardR => 21,
            KeyCode::KeyboardS => 22,
            KeyCode::KeyboardT => 23,
            KeyCode::KeyboardU => 24,
            KeyCode::KeyboardV => 25,
            KeyCode::KeyboardW => 26,
            KeyCode::KeyboardX => 27,
            KeyCode::KeyboardY => 28,
            KeyCode::KeyboardZ => 29,
            KeyCode::Keyboard1AndExclamation => 30,
            KeyCode::Keyboard2AndAt => 31,
            KeyCode::Keyboard3AndSharp => 32,
            KeyCode::Keyboard4AndDollarSign => 33,
            KeyCode::Keyboard5AndPercent => 34,
            KeyCode::Keyboard6AndCaret => 35,
            KeyCode::Keyboard7AndAmpersand => 36,
            KeyCode::Keyboard8AndAsterisk => 37,
            KeyCode::Keyboard9AndRightParentheses => 38,
            KeyCode::Keyboard0AndLeftParentheses => 39,
            KeyCode::KeyboardEnter => 40,
            KeyCode::KeyboardEscape => 41,
            KeyCode::KeyboardBackspace => 42,
            KeyCode::KeyboardTab => 43,
            KeyCode::KeyboardSpacebar => 44,
            KeyCode::KeyboardMinusAndUnderscore => 45,
            KeyCode::KeyboardEqualsAndPlus => 46,
            KeyCode::KeyboardLeftSquareBracketAndCurlyBracket => 47,
            KeyCode::KeyboardRightSquareBracketAndCurlyBracket => 48,
            KeyCode::KeyboardBackslashAndPipe => 49,
            KeyCode::KeyboardSemicolonAndColon => 51,
            KeyCode::KeyboardSingleAndDoubleQuotes => 52,
            KeyCode::KeyboardGraveAccentAndTilde => 53,
            KeyCode::KeyboardCommaAndLessThan => 54,
            KeyCode::KeyboardPeriodAndGreaterThan => 55,
            KeyCode::KeyboardSlashAndQuestionMark => 56,
            KeyCode::KeyboardCapsLock => 57,
            KeyCode::KeyboardF1 => 58,
            KeyCode::KeyboardF2 => 59,
            KeyCode::KeyboardF3 => 60,
            KeyCode::KeyboardF4 => 61,
            KeyCode::KeyboardF5 => 62,
            KeyCode::KeyboardF6 => 63,
            KeyCode::KeyboardF7 => 64,
            KeyCode::KeyboardF8 => 65,
            KeyCode::KeyboardF9 => 66,
            KeyCode::KeyboardF10 => 67,
            KeyCode::KeyboardF11 => 68,
            KeyCode::KeyboardF12 => 69,
            KeyCode::KeyboardPrintScreen => 70,
            KeyCode::KeyboardScrollLock => 71,
            KeyCode::KeyboardPause => 72,
            KeyCode::KeyboardInsert => 73,
            KeyCode::KeyboardHome => 74,
            KeyCode::KeyboardPageUp => 75,
            KeyCode::KeyboardDelete => 76,
            KeyCode::KeyboardEnd => 77,
            KeyCode::KeyboardPageDown => 78,
            KeyCode::KeyboardRightArrow => 79,
            KeyCode::KeyboardLeftArrow => 80,
            KeyCode::KeyboardDownArrow => 81,
            KeyCode::KeyboardUpArrow => 82,
            KeyCode::KeypadNumLockAndClear => 83,
            KeyCode::KeypadSlash => 84,
            KeyCode::KeypadAsterisk => 85,
            KeyCode::KeypadMinus => 86,
            KeyCode::KeypadPlus => 87,
            KeyCode::KeypadEnter => 88,
            KeyCode::Keypad1AndEnd => 89,
            KeyCode::Keypad2AndDownArrow => 90,
            KeyCode::Keypad3AndPageDn => 91,
            KeyCode::Keypad4AndLeftArrow => 92,
            KeyCode::Keypad5 => 93,
            KeyCode::Keypad6AndRightArrow => 94,
            KeyCode::Keypad7AndHome => 95,
            KeyCode::Keypad8AndUpArrow => 96,
            KeyCode::Keypad9AndPageUp => 97,
            KeyCode::Keypad0AndInsert => 98,
            KeyCode::KeypadPeriodAndDelete => 99,
            KeyCode::KeyboardNonUsBackslashAndPipe => 100,
            KeyCode::KeyboardApplication => 101,
            KeyCode::KeyboardPower => 102,
            KeyCode::KeypadEquals => 103,
            KeyCode::KeyboardF13 => 104,
            KeyCode::KeyboardF14 => 105,
            KeyCode::KeyboardF15 => 106,
            KeyCode::KeyboardF16 => 107,
            KeyCode::KeyboardF17 => 108,
            KeyCode::KeyboardF18 => 109,
            KeyCode::KeyboardF19 => 110,
            KeyCode::KeyboardF20 => 111,
            KeyCode::KeyboardF21 => 112,
            KeyCode::KeyboardF22 => 113,
            KeyCode::KeyboardF23 => 114,
            KeyCode::KeyboardF24 => 115,
            KeyCode::KeyboardExecute => 116,
            KeyCode::KeyboardHelp => 117,
            KeyCode::KeyboardMenu => 118,
            KeyCode::KeyboardSelect => 119,
            KeyCode::KeyboardStop => 120,
            KeyCode::KeyboardAgain => 121,
            KeyCode::KeyboardUndo => 122,
            KeyCode::KeyboardCut => 123,
            KeyCode::KeyboardCopy => 124,
            KeyCode::KeyboardPaste => 125,
            KeyCode::KeyboardFind => 126,
            KeyCode::KeyboardMute => 127,
            KeyCode::KeyboardVolumeUp => 128,
            KeyCode::KeyboardVolumeDown => 129,
            KeyCode::KeyboardLockingCapsLock => 130,
            KeyCode::KeyboardLockingNumLock => 131,
            KeyCode::KeyboardLockingScrollLock => 132,
            KeyCode::KeypadComma => 133,
            KeyCode::KeypadEqualSign => 134,
            KeyCode::KeyboardInternational1 => 135,
            KeyCode::KeyboardInternational2 => 136,
            KeyCode::KeyboardInternational3 => 137,
            KeyCode::KeyboardInternational4 => 138,
            KeyCode::KeyboardInternational5 => 139,
            KeyCode::KeyboardInternational6 => 140,
            KeyCode::KeyboardInternational7 => 141,
            KeyCode::KeyboardInternational8 => 142,
            KeyCode::KeyboardInternational9 => 143,
            KeyCode::KeyboardLang1 => 144,
            KeyCode::KeyboardLang2 => 145,
            KeyCode::KeyboardLang3 => 146,
            KeyCode::KeyboardLang4 => 147,
            KeyCode::KeyboardLang5 => 148,
            KeyCode::KeyboardLang6 => 149,
            KeyCode::KeyboardLang7 => 150,
            KeyCode::KeyboardLang8 => 151,
            KeyCode::KeyboardLang9 => 152,
            KeyCode::KeyboardAlternateErase => 153,
            KeyCode::KeyboardSysReqAttention => 154,
            KeyCode::KeyboardCancel => 155,
            KeyCode::KeyboardClear => 156,
            KeyCode::KeyboardPrior => 157,
            KeyCode::KeyboardReturn => 158,
            KeyCode::KeyboardSeparator => 159,
            KeyCode::KeyboardOut => 160,
            KeyCode::KeyboardOper => 161,
            KeyCode::KeyboardClearAgain => 162,
            KeyCode::KeyboardCrSelProps => 163,
            KeyCode::KeyboardExSel => 164,
            KeyCode::Keypad00 => 176,
            KeyCode::Keypad000 => 177,
            KeyCode::ThousandsSeparator => 178,
            KeyCode::DecimalSeparator => 179,
            KeyCode::CurrencyUnit => 180,
            KeyCode::CurrencySubUnit => 181,
            KeyCode::KeypadRightParentheses => 182,
            KeyCode::KeypadLeftParentheses => 183,
            KeyCode::KeypadLeftCurlyBracket => 184,
            KeyCode::KeypadRightCurlyBracket => 185,
            KeyCode::KeypadTab => 186,
            KeyCode::KeypadBackspace => 187,
            KeyCode::KeypadA => 188,
            KeyCode::KeypadB => 189,
            KeyCode::KeypadC => 190,
            KeyCode::KeypadD => 191,
            KeyCode::KeypadE => 192,
            KeyCode::KeypadF => 193,
            KeyCode::KeypadXOR => 194,
            KeyCode::KeypadCaret => 195,
            KeyCode::KeypadPercent => 196,
            KeyCode::KeypadLessThan => 197,
            KeyCode::KeypadGreaterThan => 198,
            KeyCode::KeypadAmpersand => 199,
            KeyCode::KeypadDoubleAmpersand => 200,
            KeyCode::KeypadPipe => 201,
            KeyCode::KeypadDoublePipe => 202,
            KeyCode::KeypadColon => 203,
            KeyCode::KeypadSharp => 204,
            KeyCode::KeypadSpace => 205,
            KeyCode::KeypadAt => 206,
            KeyCode::KeypadExclamation => 207,
            KeyCode::KeypadMemoryStore => 208,
            KeyCode::KeypadMemoryRecall => 209,
            KeyCode::KeypadMemoryClear => 210,
            KeyCode::KeypadMemoryAdd => 211,
            KeyCode::KeypadMemorySubtract => 212,
            KeyCode::KeypadMemoryMultiply => 213,
            KeyCode::KeypadMemoryDivide => 214,
            KeyCode::KeypadPlusMinus => 215,
            KeyCode::KeypadClear => 216,
            KeyCode::KeypadClearEntry => 217,
            KeyCode::KeypadBinary => 218,
            KeyCode::KeypadOctal => 219,
            KeyCode::KeypadDecimal => 220,
            KeyCode::KeypadHexadecimal => 221,
            KeyCode::KeyboardLeftControl => 224,
            KeyCode::KeyboardLeftShift => 225,
            KeyCode::KeyboardLeftAlt => 226,
            KeyCode::KeyboardLeftGui => 227,
            KeyCode::KeyboardRightControl => 228,
            KeyCode::KeyboardRightShift => 229,
            KeyCode::KeyboardRightAlt => 230,
            KeyCode::KeyboardRightGui => 231,
        }
    }

    /// Decodes the matrix position held in the low 7 bits of a wire byte into
    /// the key code mapped at that position, or `None` for an unpopulated cell.
    pub fn try_from_matrix_key(key: u8) -> (r: Option<KeyCode>)
        ensures
            r == matrix_slot(key % 128),
    {
        let pos = key & 0b0111_1111;
        proof {
            assert(key & 0b0111_1111 == key % 128) by (bit_vector);
        }
        matrix_lookup(pos)
    }
}

} // verus!
