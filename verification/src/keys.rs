//! Key codes, and the table that turns the scan codes of an old
//! configuration file into them.

use vstd::prelude::*;

verus! {

pub const RIGHTARROW: i32 = 0xae;

pub const LEFTARROW: i32 = 0xac;

pub const UPARROW: i32 = 0xad;

pub const DOWNARROW: i32 = 0xaf;

pub const ESCAPE: i32 = 27;

pub const ENTER: i32 = 13;

pub const TAB: i32 = 9;

pub const F1: i32 = 0x80 + 0x3b;

pub const F2: i32 = 0x80 + 0x3c;

pub const F3: i32 = 0x80 + 0x3d;

pub const F4: i32 = 0x80 + 0x3e;

pub const F5: i32 = 0x80 + 0x3f;

pub const F6: i32 = 0x80 + 0x40;

pub const F7: i32 = 0x80 + 0x41;

pub const F8: i32 = 0x80 + 0x42;

pub const F9: i32 = 0x80 + 0x43;

pub const F10: i32 = 0x80 + 0x44;

pub const F11: i32 = 0x80 + 0x57;

pub const F12: i32 = 0x80 + 0x58;

pub const BACKSPACE: i32 = 0x7f;

pub const PAUSE: i32 = 0xff;

pub const EQUALS: i32 = 0x3d;

pub const MINUS: i32 = 0x2d;

pub const RSHIFT: i32 = 0x80 + 0x36;

pub const RCTRL: i32 = 0x80 + 0x1d;

pub const RALT: i32 = 0x80 + 0x38;

pub const CAPSLOCK: i32 = 0x80 + 0x3a;

pub const SCRLCK: i32 = 0x80 + 0x46;

pub const PRTSCR: i32 = 0x80 + 0x59;

pub const HOME: i32 = 0x80 + 0x47;

pub const END: i32 = 0x80 + 0x4f;

pub const PGUP: i32 = 0x80 + 0x49;

pub const PGDN: i32 = 0x80 + 0x51;

pub const INS: i32 = 0x80 + 0x52;

pub const DEL: i32 = 0x80 + 0x53;

pub const KP_5: i32 = 0x80 + 0x4c;

pub const KP_PLUS: i32 = 0x2b;

pub const KP_MULTIPLY: i32 = 0x2a;

/// The scan code that a saved right shift key is always written as.
pub const RSHIFT_SCAN_CODE: i32 = 54;

/// The key code of each of the 128 scan codes; 0 where a scan code stands
/// for no key.
pub const SCAN_TO_KEY: [i32; 128] = [
    0, ESCAPE, '1' as i32, '2' as i32, '3' as i32, '4' as i32, '5' as i32, '6' as i32,
    '7' as i32, '8' as i32, '9' as i32, '0' as i32, '-' as i32, '=' as i32, BACKSPACE, TAB,
    'q' as i32, 'w' as i32, 'e' as i32, 'r' as i32, 't' as i32, 'y' as i32, 'u' as i32, 'i' as i32,
    'o' as i32, 'p' as i32, '[' as i32, ']' as i32, ENTER, RCTRL, 'a' as i32, 's' as i32,
    'd' as i32, 'f' as i32, 'g' as i32, 'h' as i32, 'j' as i32, 'k' as i32, 'l' as i32, ';' as i32,
    '\'' as i32, '`' as i32, RSHIFT, '\\' as i32, 'z' as i32, 'x' as i32, 'c' as i32, 'v' as i32,
    'b' as i32, 'n' as i32, 'm' as i32, ',' as i32, '.' as i32, '/' as i32, RSHIFT, KP_MULTIPLY,
    RALT, ' ' as i32, CAPSLOCK, F1, F2, F3, F4, F5,
    F6, F7, F8, F9, F10, PAUSE, SCRLCK, HOME,
    UPARROW, PGUP, MINUS, LEFTARROW, KP_5, RIGHTARROW, KP_PLUS, END,
    DOWNARROW, PGDN, INS, DEL, 0, 0, 0, F11,
    F12, 0, 0, 0, 0, 0, 0, 0,
    0, 0, 0, 0, 0, 0, 0, 0,
    0, 0, 0, 0, 0, 0, 0, 0,
    0, 0, 0, 0, 0, 0, 0, 0,
    0, 0, 0, 0, 0, 0, PRTSCR, 0,
];

/// The key code that the scan code `code` stands for; 0 for a code outside
/// the table.
pub open spec fn scan_to_key(code: int) -> int {
    if 0 <= code < 128 {
        SCAN_TO_KEY@[code] as int
    } else {
        0
    }
}

/// Whether `code` is the first scan code of the table that stands for `key`.
pub open spec fn first_scan_code(key: int, code: int) -> bool {
    &&& 0 <= code < 128
    &&& SCAN_TO_KEY@[code] == key
    &&& forall|s: int| 0 <= s < code ==> SCAN_TO_KEY@[s] != key
}

/// Whether no scan code of the table stands for `key`.
pub open spec fn no_scan_code(key: int) -> bool {
    forall|s: int| 0 <= s < 128 ==> SCAN_TO_KEY@[s] != key
}

/// The key code that the scan code `code` stands for; 0 for a code outside
/// the table.
pub fn key_of_scan_code(code: i32) -> (key: i32)
    ensures
        key == scan_to_key(code as int),
{
    if 0 <= code && code < 128 {
        SCAN_TO_KEY[code as usize]
    } else {
        0
    }
}

/// The first scan code of the table that stands for `key`, if any does.
pub fn scan_code_of_key(key: i32) -> (r: Option<i32>)
    ensures
        match r {
            Some(code) => first_scan_code(key as int, code as int),
            None => no_scan_code(key as int),
        },
{
    let mut s: usize = 0;
    while s < 128
        invariant
            s <= 128,
            forall|j: int| 0 <= j < s ==> SCAN_TO_KEY@[j] != key,
        decreases 128 - s,
    {
        if SCAN_TO_KEY[s] == key {
            return Some(s as i32);
        }
        s += 1;
    }
    None
}

} // verus!
