//! Linux input event codes (`linux/input-event-codes.h`) for the virtual
//! keyboard and mouse, and the mapping of characters and key names to them.

use vstd::prelude::*;

use crate::input::{InputError, InputErrorModel};
use crate::text::{chars_of, eq_lit, lit, parse_unsigned, slice};

verus! {

pub const KEY_ESC: u16 = 1;
pub const KEY_1: u16 = 2;
pub const KEY_2: u16 = 3;
pub const KEY_3: u16 = 4;
pub const KEY_4: u16 = 5;
pub const KEY_5: u16 = 6;
pub const KEY_6: u16 = 7;
pub const KEY_7: u16 = 8;
pub const KEY_8: u16 = 9;
pub const KEY_9: u16 = 10;
pub const KEY_0: u16 = 11;
pub const KEY_MINUS: u16 = 12;
pub const KEY_EQUAL: u16 = 13;
pub const KEY_BACKSPACE: u16 = 14;
pub const KEY_TAB: u16 = 15;
pub const KEY_Q: u16 = 16;
pub const KEY_W: u16 = 17;
pub const KEY_E: u16 = 18;
pub const KEY_R: u16 = 19;
pub const KEY_T: u16 = 20;
pub const KEY_Y: u16 = 21;
pub const KEY_U: u16 = 22;
pub const KEY_I: u16 = 23;
pub const KEY_O: u16 = 24;
pub const KEY_P: u16 = 25;
pub const KEY_A: u16 = 30;
pub const KEY_S: u16 = 31;
pub const KEY_D: u16 = 32;
pub const KEY_F: u16 = 33;
pub const KEY_G: u16 = 34;
pub const KEY_H: u16 = 35;
pub const KEY_J: u16 = 36;
pub const KEY_K: u16 = 37;
pub const KEY_L: u16 = 38;
pub const KEY_Z: u16 = 44;
pub const KEY_X: u16 = 45;
pub const KEY_C: u16 = 46;
pub const KEY_V: u16 = 47;
pub const KEY_B: u16 = 48;
pub const KEY_N: u16 = 49;
pub const KEY_M: u16 = 50;
pub const KEY_LEFTBRACE: u16 = 26;
pub const KEY_RIGHTBRACE: u16 = 27;
pub const KEY_ENTER: u16 = 28;
pub const KEY_LEFTCTRL: u16 = 29;
pub const KEY_SEMICOLON: u16 = 39;
pub const KEY_APOSTROPHE: u16 = 40;
pub const KEY_GRAVE: u16 = 41;
pub const KEY_LEFTSHIFT: u16 = 42;
pub const KEY_BACKSLASH: u16 = 43;
pub const KEY_COMMA: u16 = 51;
pub const KEY_DOT: u16 = 52;
pub const KEY_SLASH: u16 = 53;
pub const KEY_LEFTALT: u16 = 56;
pub const KEY_SPACE: u16 = 57;
pub const KEY_F1: u16 = 59;
pub const KEY_F5: u16 = 63;
pub const KEY_F11: u16 = 87;
pub const KEY_F12: u16 = 88;
pub const KEY_HOME: u16 = 102;
pub const KEY_UP: u16 = 103;
pub const KEY_PAGEUP: u16 = 104;
pub const KEY_LEFT: u16 = 105;
pub const KEY_RIGHT: u16 = 106;
pub const KEY_END: u16 = 107;
pub const KEY_DOWN: u16 = 108;
pub const KEY_PAGEDOWN: u16 = 109;
pub const KEY_DELETE: u16 = 111;
pub const KEY_LEFTMETA: u16 = 125;
pub const BTN_LEFT: u16 = 0x110;
pub const BTN_RIGHT: u16 = 0x111;
pub const BTN_MIDDLE: u16 = 0x112;
pub const REL_X: u16 = 0;
pub const REL_Y: u16 = 1;

/// The key of the `i`-th letter of the alphabet (0 for `a`) on a US
/// (QWERTY) layout.
pub open spec fn letter_key(i: int) -> u16 {
    if i == 0 {
        KEY_A
    } else if i == 1 {
        KEY_B
    } else if i == 2 {
        KEY_C
    } else if i == 3 {
        KEY_D
    } else if i == 4 {
        KEY_E
    } else if i == 5 {
        KEY_F
    } else if i == 6 {
        KEY_G
    } else if i == 7 {
        KEY_H
    } else if i == 8 {
        KEY_I
    } else if i == 9 {
        KEY_J
    } else if i == 10 {
        KEY_K
    } else if i == 11 {
        KEY_L
    } else if i == 12 {
        KEY_M
    } else if i == 13 {
        KEY_N
    } else if i == 14 {
        KEY_O
    } else if i == 15 {
        KEY_P
    } else if i == 16 {
        KEY_Q
    } else if i == 17 {
        KEY_R
    } else if i == 18 {
        KEY_S
    } else if i == 19 {
        KEY_T
    } else if i == 20 {
        KEY_U
    } else if i == 21 {
        KEY_V
    } else if i == 22 {
        KEY_W
    } else if i == 23 {
        KEY_X
    } else if i == 24 {
        KEY_Y
    } else {
        KEY_Z
    }
}

fn letter_code(i: u32) -> (r: u16)
    requires
        i < 26,
    ensures
        r == letter_key(i as int),
{
    if i == 0 {
        KEY_A
    } else if i == 1 {
        KEY_B
    } else if i == 2 {
        KEY_C
    } else if i == 3 {
        KEY_D
    } else if i == 4 {
        KEY_E
    } else if i == 5 {
        KEY_F
    } else if i == 6 {
        KEY_G
    } else if i == 7 {
        KEY_H
    } else if i == 8 {
        KEY_I
    } else if i == 9 {
        KEY_J
    } else if i == 10 {
        KEY_K
    } else if i == 11 {
        KEY_L
    } else if i == 12 {
        KEY_M
    } else if i == 13 {
        KEY_N
    } else if i == 14 {
        KEY_O
    } else if i == 15 {
        KEY_P
    } else if i == 16 {
        KEY_Q
    } else if i == 17 {
        KEY_R
    } else if i == 18 {
        KEY_S
    } else if i == 19 {
        KEY_T
    } else if i == 20 {
        KEY_U
    } else if i == 21 {
        KEY_V
    } else if i == 22 {
        KEY_W
    } else if i == 23 {
        KEY_X
    } else if i == 24 {
        KEY_Y
    } else {
        KEY_Z
    }
}

/// Key and shift state for a printable ASCII character on a US layout.
/// Digits 1-9 lie in a row from `KEY_1`; letters follow the QWERTY rows.
pub open spec fn ascii_key_spec(c: char) -> Option<(u16, bool)> {
    let u = c as int;
    if u == 0x20 {
        Some((KEY_SPACE, false))
    } else if 0x30 <= u <= 0x39 {
        if u == 0x30 {
            Some((KEY_0, false))
        } else {
            Some(((KEY_1 + (u - 0x31)) as u16, false))
        }
    } else if 0x41 <= u <= 0x5a {
        Some((letter_key(u - 0x41), true))
    } else if 0x61 <= u <= 0x7a {
        Some((letter_key(u - 0x61), false))
    } else {
        punct_key(u)
    }
}

/// Punctuation of a US layout.
pub open spec fn punct_key(u: int) -> Option<(u16, bool)> {
    if u == 0x21 {
        Some((KEY_1, true))
    } else if u == 0x22 {
        Some((KEY_APOSTROPHE, true))
    } else if u == 0x23 {
        Some((KEY_3, true))
    } else if u == 0x24 {
        Some((KEY_4, true))
    } else if u == 0x25 {
        Some((KEY_5, true))
    } else if u == 0x26 {
        Some((KEY_7, true))
    } else if u == 0x27 {
        Some((KEY_APOSTROPHE, false))
    } else if u == 0x28 {
        Some((KEY_9, true))
    } else if u == 0x29 {
        Some((KEY_0, true))
    } else if u == 0x2a {
        Some((KEY_8, true))
    } else if u == 0x2b {
        Some((KEY_EQUAL, true))
    } else if u == 0x2c {
        Some((KEY_COMMA, false))
    } else if u == 0x2d {
        Some((KEY_MINUS, false))
    } else if u == 0x2e {
        Some((KEY_DOT, false))
    } else if u == 0x2f {
        Some((KEY_SLASH, false))
    } else if u == 0x3a {
        Some((KEY_SEMICOLON, true))
    } else if u == 0x3b {
        Some((KEY_SEMICOLON, false))
    } else if u == 0x3c {
        Some((KEY_COMMA, true))
    } else if u == 0x3d {
        Some((KEY_EQUAL, false))
    } else if u == 0x3e {
        Some((KEY_DOT, true))
    } else if u == 0x3f {
        Some((KEY_SLASH, true))
    } else if u == 0x40 {
        Some((KEY_2, true))
    } else if u == 0x5b {
        Some((KEY_LEFTBRACE, false))
    } else if u == 0x5c {
        Some((KEY_BACKSLASH, false))
    } else if u == 0x5d {
        Some((KEY_RIGHTBRACE, false))
    } else if u == 0x5e {
        Some((KEY_6, true))
    } else if u == 0x5f {
        Some((KEY_MINUS, true))
    } else if u == 0x60 {
        Some((KEY_GRAVE, false))
    } else if u == 0x7b {
        Some((KEY_LEFTBRACE, true))
    } else if u == 0x7c {
        Some((KEY_BACKSLASH, true))
    } else if u == 0x7d {
        Some((KEY_RIGHTBRACE, true))
    } else if u == 0x7e {
        Some((KEY_GRAVE, true))
    } else {
        None
    }
}

fn punct_key_exec(u: u32) -> (r: Option<(u16, bool)>)
    ensures
        r == punct_key(u as int),
{
    if u == 0x21 {
        Some((KEY_1, true))
    } else if u == 0x22 {
        Some((KEY_APOSTROPHE, true))
    } else if u == 0x23 {
        Some((KEY_3, true))
    } else if u == 0x24 {
        Some((KEY_4, true))
    } else if u == 0x25 {
        Some((KEY_5, true))
    } else if u == 0x26 {
        Some((KEY_7, true))
    } else if u == 0x27 {
        Some((KEY_APOSTROPHE, false))
    } else if u == 0x28 {
        Some((KEY_9, true))
    } else if u == 0x29 {
        Some((KEY_0, true))
    } else if u == 0x2a {
        Some((KEY_8, true))
    } else if u == 0x2b {
        Some((KEY_EQUAL, true))
    } else if u == 0x2c {
        Some((KEY_COMMA, false))
    } else if u == 0x2d {
        Some((KEY_MINUS, false))
    } else if u == 0x2e {
        Some((KEY_DOT, false))
    } else if u == 0x2f {
        Some((KEY_SLASH, false))
    } else if u == 0x3a {
        Some((KEY_SEMICOLON, true))
    } else if u == 0x3b {
        Some((KEY_SEMICOLON, false))
    } else if u == 0x3c {
        Some((KEY_COMMA, true))
    } else if u == 0x3d {
        Some((KEY_EQUAL, false))
    } else if u == 0x3e {
        Some((KEY_DOT, true))
    } else if u == 0x3f {
        Some((KEY_SLASH, true))
    } else if u == 0x40 {
        Some((KEY_2, true))
    } else if u == 0x5b {
        Some((KEY_LEFTBRACE, false))
    } else if u == 0x5c {
        Some((KEY_BACKSLASH, false))
    } else if u == 0x5d {
        Some((KEY_RIGHTBRACE, false))
    } else if u == 0x5e {
        Some((KEY_6, true))
    } else if u == 0x5f {
        Some((KEY_MINUS, true))
    } else if u == 0x60 {
        Some((KEY_GRAVE, false))
    } else if u == 0x7b {
        Some((KEY_LEFTBRACE, true))
    } else if u == 0x7c {
        Some((KEY_BACKSLASH, true))
    } else if u == 0x7d {
        Some((KEY_RIGHTBRACE, true))
    } else if u == 0x7e {
        Some((KEY_GRAVE, true))
    } else {
        None
    }
}

/// Key and shift state of a printable ASCII character (US layout); other
/// characters have none.
pub fn ascii_key(c: char) -> (r: Option<(u16, bool)>)
    ensures
        r == ascii_key_spec(c),
{
    let u = c as u32;
    if u == 0x20 {
        Some((KEY_SPACE, false))
    } else if 0x30 <= u && u <= 0x39 {
        if u == 0x30 {
            Some((KEY_0, false))
        } else {
            Some((KEY_1 + (u - 0x31) as u16, false))
        }
    } else if 0x41 <= u && u <= 0x5a {
        Some((letter_code(u - 0x41), true))
    } else if 0x61 <= u && u <= 0x7a {
        Some((letter_code(u - 0x61), false))
    } else {
        punct_key_exec(u)
    }
}

/// A one-character key name maps like that character.
pub open spec fn ascii_key_any_spec(name: Seq<char>) -> Option<(u16, bool)> {
    if name.len() == 1 {
        ascii_key_spec(name[0])
    } else {
        None
    }
}

pub fn ascii_key_any(name: &str) -> (r: Option<(u16, bool)>)
    ensures
        r == ascii_key_any_spec(name@),
{
    let v = chars_of(name);
    if v.len() == 1 {
        ascii_key(v[0])
    } else {
        None
    }
}

/// Named keys (xkb keysym names).
pub open spec fn named_key_spec(name: Seq<char>) -> Option<u16> {
    if name == "Enter"@ || name == "Return"@ {
        Some(KEY_ENTER)
    } else if name == "Tab"@ {
        Some(KEY_TAB)
    } else if name == "Space"@ || name == "Spacebar"@ {
        Some(KEY_SPACE)
    } else if name == "BackSpace"@ || name == "Backspace"@ {
        Some(KEY_BACKSPACE)
    } else if name == "Delete"@ {
        Some(KEY_DELETE)
    } else if name == "Escape"@ || name == "Esc"@ {
        Some(KEY_ESC)
    } else if name == "Home"@ {
        Some(KEY_HOME)
    } else if name == "End"@ {
        Some(KEY_END)
    } else if name == "PageUp"@ {
        Some(KEY_PAGEUP)
    } else if name == "PageDown"@ {
        Some(KEY_PAGEDOWN)
    } else if name == "Up"@ {
        Some(KEY_UP)
    } else if name == "Down"@ {
        Some(KEY_DOWN)
    } else if name == "Left"@ {
        Some(KEY_LEFT)
    } else if name == "Right"@ {
        Some(KEY_RIGHT)
    } else {
        None
    }
}

fn named_key(v: &Vec<char>) -> (r: Option<u16>)
    ensures
        r == named_key_spec(v@),
{
    if eq_lit(v, "Enter") || eq_lit(v, "Return") {
        Some(KEY_ENTER)
    } else if eq_lit(v, "Tab") {
        Some(KEY_TAB)
    } else if eq_lit(v, "Space") || eq_lit(v, "Spacebar") {
        Some(KEY_SPACE)
    } else if eq_lit(v, "BackSpace") || eq_lit(v, "Backspace") {
        Some(KEY_BACKSPACE)
    } else if eq_lit(v, "Delete") {
        Some(KEY_DELETE)
    } else if eq_lit(v, "Escape") || eq_lit(v, "Esc") {
        Some(KEY_ESC)
    } else if eq_lit(v, "Home") {
        Some(KEY_HOME)
    } else if eq_lit(v, "End") {
        Some(KEY_END)
    } else if eq_lit(v, "PageUp") {
        Some(KEY_PAGEUP)
    } else if eq_lit(v, "PageDown") {
        Some(KEY_PAGEDOWN)
    } else if eq_lit(v, "Up") {
        Some(KEY_UP)
    } else if eq_lit(v, "Down") {
        Some(KEY_DOWN)
    } else if eq_lit(v, "Left") {
        Some(KEY_LEFT)
    } else if eq_lit(v, "Right") {
        Some(KEY_RIGHT)
    } else {
        None
    }
}

/// `F1`..`F12`, counted on from `KEY_F1`.
pub open spec fn function_key_spec(name: Seq<char>) -> Option<u16> {
    if name.len() > 0 && name[0] == 'F' {
        match parse_unsigned(name.drop_first(), u16::MAX as nat) {
            Some(n) => if 1 <= n <= 12 {
                Some((KEY_F1 + n - 1) as u16)
            } else {
                None
            },
            None => None,
        }
    } else {
        None
    }
}

/// Key and shift state of a key name: a single character, a named key or
/// F1–F12.
pub open spec fn key_name_spec(name: Seq<char>) -> Option<(u16, bool)> {
    match ascii_key_any_spec(name) {
        Some(k) => Some(k),
        None => match named_key_spec(name) {
            Some(c) => Some((c, false)),
            None => match function_key_spec(name) {
                Some(c) => Some((c, false)),
                None => None,
            },
        },
    }
}

/// Key code and shift state of a key name; names the virtual keyboard does
/// not know are refused.
pub fn parse_key_name(name: &str) -> (r: Result<(u16, bool), InputError>)
    ensures
        match r {
            Ok(k) => key_name_spec(name@) == Some(k),
            Err(e) => key_name_spec(name@) is None && e@ == InputErrorModel::UnknownKey(name@),
        },
{
    if let Some(k) = ascii_key_any(name) {
        return Ok(k);
    }
    let v = chars_of(name);
    if let Some(c) = named_key(&v) {
        return Ok((c, false));
    }
    if v.len() > 0 && v[0] == 'F' {
        let rest = slice(&v, 1, v.len());
        assert(rest@ =~= v@.drop_first());
        if let Some(n) = crate::text::parse_unsigned_chars(&rest, u16::MAX as u64) {
            if 1 <= n && n <= 12 {
                return Ok((KEY_F1 + (n - 1) as u16, false));
            }
        }
    }
    Err(InputError::UnknownKey(lit(name)))
}

/// Codes of the named keys and F1–F12 the virtual keyboard registers.
pub open spec fn named_codes_spec() -> Seq<u16> {
    seq![
        KEY_ENTER,
        KEY_TAB,
        KEY_SPACE,
        KEY_BACKSPACE,
        KEY_DELETE,
        KEY_ESC,
        KEY_HOME,
        KEY_END,
        KEY_PAGEUP,
        KEY_PAGEDOWN,
        KEY_UP,
        KEY_DOWN,
        KEY_LEFT,
        KEY_RIGHT,
        59,
        60,
        61,
        62,
        63,
        64,
        65,
        66,
        67,
        68,
        KEY_F11,
        KEY_F12,
    ]
}

/// Modifier keys: ctrl, shift, alt, meta.
pub open spec fn modifier_codes_spec() -> Seq<u16> {
    seq![KEY_LEFTCTRL, KEY_LEFTSHIFT, KEY_LEFTALT, KEY_LEFTMETA]
}

pub open spec fn ascii_codes_from(u: int) -> Seq<u16>
    decreases 0x7f - u,
{
    if u < 0x20 || u > 0x7e {
        Seq::empty()
    } else {
        match ascii_key_spec(u as char) {
            Some((k, _)) => seq![k] + ascii_codes_from(u + 1),
            None => ascii_codes_from(u + 1),
        }
    }
}

/// Every key code the virtual keyboard registers: the keys of the printable
/// ASCII characters (in character order), the named keys, the modifiers.
pub open spec fn keyboard_codes_spec() -> Seq<u16> {
    ascii_codes_from(0x20) + named_codes_spec() + modifier_codes_spec()
}

fn push_code(v: &mut Vec<u16>, c: u16)
    ensures
        final(v)@ == old(v)@.push(c),
{
    v.push(c);
}

pub fn keyboard_codes() -> (r: Vec<u16>)
    ensures
        r@ == keyboard_codes_spec(),
{
    let mut v: Vec<u16> = Vec::new();
    let mut u: u32 = 0x20;
    while u <= 0x7e
        invariant
            0x20 <= u <= 0x7f,
            v@ + ascii_codes_from(u as int) == ascii_codes_from(0x20),
        decreases 0x7f - u,
    {
        let ghost before = v@;
        let c = char_of(u);
        match ascii_key(c) {
            Some((k, _)) => push_code(&mut v, k),
            None => {},
        }
        assert(v@ + ascii_codes_from(u + 1) =~= before + ascii_codes_from(u as int));
        u += 1;
    }
    assert(v@ =~= ascii_codes_from(0x20));
    let ghost a = v@;
    push_code(&mut v, KEY_ENTER);
    push_code(&mut v, KEY_TAB);
    push_code(&mut v, KEY_SPACE);
    push_code(&mut v, KEY_BACKSPACE);
    push_code(&mut v, KEY_DELETE);
    push_code(&mut v, KEY_ESC);
    push_code(&mut v, KEY_HOME);
    push_code(&mut v, KEY_END);
    push_code(&mut v, KEY_PAGEUP);
    push_code(&mut v, KEY_PAGEDOWN);
    push_code(&mut v, KEY_UP);
    push_code(&mut v, KEY_DOWN);
    push_code(&mut v, KEY_LEFT);
    push_code(&mut v, KEY_RIGHT);
    let mut f: u16 = 59;
    while f <= 68
        invariant
            59 <= f <= 69,
            v@ == a + named_codes_spec().take(14 + (f - 59)),
        decreases 69 - f,
    {
        push_code(&mut v, f);
        f += 1;
        assert(v@ =~= a + named_codes_spec().take(14 + (f - 59)));
    }
    push_code(&mut v, KEY_F11);
    push_code(&mut v, KEY_F12);
    assert(v@ =~= a + named_codes_spec());
    push_code(&mut v, KEY_LEFTCTRL);
    push_code(&mut v, KEY_LEFTSHIFT);
    push_code(&mut v, KEY_LEFTALT);
    push_code(&mut v, KEY_LEFTMETA);
    assert(v@ =~= keyboard_codes_spec());
    v
}

/// The character with an ASCII code.
fn char_of(u: u32) -> (c: char)
    requires
        u < 128,
    ensures
        c as int == u as int,
{
    (u as u8) as char
}

} // verus!
