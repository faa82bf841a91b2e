//! Key codes of the keyboard-emulating tag reader, and the digit each
//! digit-row key stands for. The codes are the Linux input event codes the
//! reader emits.

use vstd::prelude::*;

verus! {

/// Event type of a key event (EV_KEY).
pub const EV_KEY: u16 = 1;

/// Event value of a key-down transition, as opposed to a release or repeat.
pub const KEY_PRESS_VALUE: i32 = 1;

/// Key code of the digit key "1".
pub const KEY_1: u16 = 2;

/// Key code of the digit key "2".
pub const KEY_2: u16 = 3;

/// Key code of the digit key "3".
pub const KEY_3: u16 = 4;

/// Key code of the digit key "4".
pub const KEY_4: u16 = 5;

/// Key code of the digit key "5".
pub const KEY_5: u16 = 6;

/// Key code of the digit key "6".
pub const KEY_6: u16 = 7;

/// Key code of the digit key "7".
pub const KEY_7: u16 = 8;

/// Key code of the digit key "8".
pub const KEY_8: u16 = 9;

/// Key code of the digit key "9".
pub const KEY_9: u16 = 10;

/// Key code of the digit key "0".
pub const KEY_0: u16 = 11;

/// Key code of the terminator key that ends a tag scan (KEY_ENTER).
pub const KEY_ENTER: u16 = 28;

/// The digit character printed on the key with the given code, if the key is
/// one of the digit-row keys.
pub open spec fn spec_digit_of(code: u16) -> Option<char> {
    if code == KEY_1 {
        Some('1')
    } else if code == KEY_2 {
        Some('2')
    } else if code == KEY_3 {
        Some('3')
    } else if code == KEY_4 {
        Some('4')
    } else if code == KEY_5 {
        Some('5')
    } else if code == KEY_6 {
        Some('6')
    } else if code == KEY_7 {
        Some('7')
    } else if code == KEY_8 {
        Some('8')
    } else if code == KEY_9 {
        Some('9')
    } else if code == KEY_0 {
        Some('0')
    } else {
        None
    }
}

/// Maps a key code to the digit character printed on the key; any other key
/// maps to nothing.
pub fn get_char(code: u16) -> (r: Option<char>)
    ensures
        r == spec_digit_of(code),
{
    if code == KEY_1 {
        Some('1')
    } else if code == KEY_2 {
        Some('2')
    } else if code == KEY_3 {
        Some('3')
    } else if code == KEY_4 {
        Some('4')
    } else if code == KEY_5 {
        Some('5')
    } else if code == KEY_6 {
        Some('6')
    } else if code == KEY_7 {
        Some('7')
    } else if code == KEY_8 {
        Some('8')
    } else if code == KEY_9 {
        Some('9')
    } else if code == KEY_0 {
        Some('0')
    } else {
        None
    }
}

} // verus!
