//! The keys of the captured keyboard and the characters they type.

use vstd::prelude::*;

verus! {

pub const KEY_1: u16 = 2;
pub const KEY_2: u16 = 3;
pub const KEY_3: u16 = 4;
pub const KEY_4: u16 = 5;
pub const KEY_5: u16 = 6;
pub const KEY_6: u16 = 7;
pub const KEY_7: u16 = 8;
pub const KEY_8: u16 = 9;
pub const KEY_9: u16 = 10;
pub const KEY_0: u16 = 11;
pub const KEY_MINUS: u16 = 12;
pub const KEY_EQUAL: u16 = 13;
pub const KEY_BACKSPACE: u16 = 14;
pub const KEY_Q: u16 = 16;
pub const KEY_W: u16 = 17;
pub const KEY_E: u16 = 18;
pub const KEY_R: u16 = 19;
pub const KEY_T: u16 = 20;
pub const KEY_Y: u16 = 21;
pub const KEY_U: u16 = 22;
pub const KEY_I: u16 = 23;
pub const KEY_O: u16 = 24;
pub const KEY_P: u16 = 25;
pub const KEY_LEFTBRACE: u16 = 26;
pub const KEY_RIGHTBRACE: u16 = 27;
pub const KEY_ENTER: u16 = 28;
pub const KEY_A: u16 = 30;
pub const KEY_S: u16 = 31;
pub const KEY_D: u16 = 32;
pub const KEY_F: u16 = 33;
pub const KEY_G: u16 = 34;
pub const KEY_H: u16 = 35;
pub const KEY_J: u16 = 36;
pub const KEY_K: u16 = 37;
pub const KEY_L: u16 = 38;
pub const KEY_SEMICOLON: u16 = 39;
pub const KEY_APOSTROPHE: u16 = 40;
pub const KEY_GRAVE: u16 = 41;
pub const KEY_LEFTSHIFT: u16 = 42;
pub const KEY_BACKSLASH: u16 = 43;
pub const KEY_Z: u16 = 44;
pub const KEY_X: u16 = 45;
pub const KEY_C: u16 = 46;
pub const KEY_V: u16 = 47;
pub const KEY_B: u16 = 48;
pub const KEY_N: u16 = 49;
pub const KEY_M: u16 = 50;
pub const KEY_COMMA: u16 = 51;
pub const KEY_DOT: u16 = 52;
pub const KEY_SLASH: u16 = 53;
pub const KEY_RIGHTSHIFT: u16 = 54;
pub const KEY_SPACE: u16 = 57;

/// A key, known by its code in Linux's `input-event-codes.h`.
#[derive(Clone, Copy, Debug, PartialEq, Eq, Structural)]
pub struct Key {
    pub code: u16,
}

impl Key {
    /// The key with the given code.
    pub fn new(code: u16) -> (key: Key)
        ensures
            key.code == code,
    {
        Key { code }
    }
}

/// The two characters of a key: the one that it types alone, and the one that it types with
/// Shift held. A key that types no character has none.
pub open spec fn faces(code: u16) -> Option<(char, char)> {
    match code {
        KEY_A => Some(('a', 'A')),
        KEY_B => Some(('b', 'B')),
        KEY_C => Some(('c', 'C')),
        KEY_D => Some(('d', 'D')),
        KEY_E => Some(('e', 'E')),
        KEY_F => Some(('f', 'F')),
        KEY_G => Some(('g', 'G')),
        KEY_H => Some(('h', 'H')),
        KEY_I => Some(('i', 'I')),
        KEY_J => Some(('j', 'J')),
        KEY_K => Some(('k', 'K')),
        KEY_L => Some(('l', 'L')),
        KEY_M => Some(('m', 'M')),
        KEY_N => Some(('n', 'N')),
        KEY_O => Some(('o', 'O')),
        KEY_P => Some(('p', 'P')),
        KEY_Q => Some(('q', 'Q')),
        KEY_R => Some(('r', 'R')),
        KEY_S => Some(('s', 'S')),
        KEY_T => Some(('t', 'T')),
        KEY_U => Some(('u', 'U')),
        KEY_V => Some(('v', 'V')),
        KEY_W => Some(('w', 'W')),
        KEY_X => Some(('x', 'X')),
        KEY_Y => Some(('y', 'Y')),
        KEY_Z => Some(('z', 'Z')),
        KEY_0 => Some(('0', ')')),
        KEY_1 => Some(('1', '!')),
        KEY_2 => Some(('2', '@')),
        KEY_3 => Some(('3', '#')),
        KEY_4 => Some(('4', '$')),
        KEY_5 => Some(('5', '%')),
        KEY_6 => Some(('6', '^')),
        KEY_7 => Some(('7', '&')),
        KEY_8 => Some(('8', '*')),
        KEY_9 => Some(('9', '(')),
        KEY_SPACE => Some((' ', ' ')),
        KEY_DOT => Some(('.', '>')),
        KEY_COMMA => Some((',', '<')),
        KEY_SEMICOLON => Some((';', ':')),
        KEY_APOSTROPHE => Some(('\'', '"')),
        KEY_SLASH => Some(('/', '?')),
        KEY_MINUS => Some(('-', '_')),
        KEY_EQUAL => Some(('=', '+')),
        KEY_LEFTBRACE => Some(('[', '{')),
        KEY_RIGHTBRACE => Some((']', '}')),
        KEY_BACKSLASH => Some(('\\', '|')),
        KEY_GRAVE => Some(('`', '~')),
        _ => None,
    }
}

/// The character that a key types.
pub open spec fn key_char(key: Key, shifted: bool) -> Option<char> {
    match faces(key.code) {
        Some((alone, with_shift)) => Some(if shifted { with_shift } else { alone }),
        None => None,
    }
}

/// Whether `key` is one of the two Shift keys.
pub open spec fn is_shift(key: Key) -> bool {
    key.code == KEY_LEFTSHIFT || key.code == KEY_RIGHTSHIFT
}

/// The character that `key` types, with Shift held or not. None for a key that types no
/// character.
pub fn key_to_char(key: Key, shifted: bool) -> (r: Option<char>)
    ensures
        r == key_char(key, shifted),
{
    match key.code {
        KEY_A => Some(if shifted { 'A' } else { 'a' }),
        KEY_B => Some(if shifted { 'B' } else { 'b' }),
        KEY_C => Some(if shifted { 'C' } else { 'c' }),
        KEY_D => Some(if shifted { 'D' } else { 'd' }),
        KEY_E => Some(if shifted { 'E' } else { 'e' }),
        KEY_F => Some(if shifted { 'F' } else { 'f' }),
        KEY_G => Some(if shifted { 'G' } else { 'g' }),
        KEY_H => Some(if shifted { 'H' } else { 'h' }),
        KEY_I => Some(if shifted { 'I' } else { 'i' }),
        KEY_J => Some(if shifted { 'J' } else { 'j' }),
        KEY_K => Some(if shifted { 'K' } else { 'k' }),
        KEY_L => Some(if shifted { 'L' } else { 'l' }),
        KEY_M => Some(if shifted { 'M' } else { 'm' }),
        KEY_N => Some(if shifted { 'N' } else { 'n' }),
        KEY_O => Some(if shifted { 'O' } else { 'o' }),
        KEY_P => Some(if shifted { 'P' } else { 'p' }),
        KEY_Q => Some(if shifted { 'Q' } else { 'q' }),
        KEY_R => Some(if shifted { 'R' } else { 'r' }),
        KEY_S => Some(if shifted { 'S' } else { 's' }),
        KEY_T => Some(if shifted { 'T' } else { 't' }),
        KEY_U => Some(if shifted { 'U' } else { 'u' }),
        KEY_V => Some(if shifted { 'V' } else { 'v' }),
        KEY_W => Some(if shifted { 'W' } else { 'w' }),
        KEY_X => Some(if shifted { 'X' } else { 'x' }),
        KEY_Y => Some(if shifted { 'Y' } else { 'y' }),
        KEY_Z => Some(if shifted { 'Z' } else { 'z' }),
        KEY_0 => Some(if shifted { ')' } else { '0' }),
        KEY_1 => Some(if shifted { '!' } else { '1' }),
        KEY_2 => Some(if shifted { '@' } else { '2' }),
        KEY_3 => Some(if shifted { '#' } else { '3' }),
        KEY_4 => Some(if shifted { '$' } else { '4' }),
        KEY_5 => Some(if shifted { '%' } else { '5' }),
        KEY_6 => Some(if shifted { '^' } else { '6' }),
        KEY_7 => Some(if shifted { '&' } else { '7' }),
        KEY_8 => Some(if shifted { '*' } else { '8' }),
        KEY_9 => Some(if shifted { '(' } else { '9' }),
        KEY_SPACE => Some(' '),
        KEY_DOT => Some(if shifted { '>' } else { '.' }),
        KEY_COMMA => Some(if shifted { '<' } else { ',' }),
        KEY_SEMICOLON => Some(if shifted { ':' } else { ';' }),
        KEY_APOSTROPHE => Some(if shifted { '"' } else { '\'' }),
        KEY_SLASH => Some(if shifted { '?' } else { '/' }),
        KEY_MINUS => Some(if shifted { '_' } else { '-' }),
        KEY_EQUAL => Some(if shifted { '+' } else { '=' }),
        KEY_LEFTBRACE => Some(if shifted { '{' } else { '[' }),
        KEY_RIGHTBRACE => Some(if shifted { '}' } else { ']' }),
        KEY_BACKSLASH => Some(if shifted { '|' } else { '\\' }),
        KEY_GRAVE => Some(if shifted { '~' } else { '`' }),
        _ => None,
    }
}

/// The characters that can be typed: the printable characters of ASCII.
pub open spec fn is_printable(c: char) -> bool {
    ' ' <= c <= '~'
}

/// The code of the key that types a printable character.
pub open spec fn code_for(c: char) -> u16 {
    match c {
        'a' | 'A' => KEY_A,
        'b' | 'B' => KEY_B,
        'c' | 'C' => KEY_C,
        'd' | 'D' => KEY_D,
        'e' | 'E' => KEY_E,
        'f' | 'F' => KEY_F,
        'g' | 'G' => KEY_G,
        'h' | 'H' => KEY_H,
        'i' | 'I' => KEY_I,
        'j' | 'J' => KEY_J,
        'k' | 'K' => KEY_K,
        'l' | 'L' => KEY_L,
        'm' | 'M' => KEY_M,
        'n' | 'N' => KEY_N,
        'o' | 'O' => KEY_O,
        'p' | 'P' => KEY_P,
        'q' | 'Q' => KEY_Q,
        'r' | 'R' => KEY_R,
        's' | 'S' => KEY_S,
        't' | 'T' => KEY_T,
        'u' | 'U' => KEY_U,
        'v' | 'V' => KEY_V,
        'w' | 'W' => KEY_W,
        'x' | 'X' => KEY_X,
        'y' | 'Y' => KEY_Y,
        'z' | 'Z' => KEY_Z,
        '0' | ')' => KEY_0,
        '1' | '!' => KEY_1,
        '2' | '@' => KEY_2,
        '3' | '#' => KEY_3,
        '4' | '$' => KEY_4,
        '5' | '%' => KEY_5,
        '6' | '^' => KEY_6,
        '7' | '&' => KEY_7,
        '8' | '*' => KEY_8,
        '9' | '(' => KEY_9,
        '.' | '>' => KEY_DOT,
        ',' | '<' => KEY_COMMA,
        ';' | ':' => KEY_SEMICOLON,
        '\'' | '"' => KEY_APOSTROPHE,
        '/' | '?' => KEY_SLASH,
        '-' | '_' => KEY_MINUS,
        '=' | '+' => KEY_EQUAL,
        '[' | '{' => KEY_LEFTBRACE,
        ']' | '}' => KEY_RIGHTBRACE,
        '\\' | '|' => KEY_BACKSLASH,
        '`' | '~' => KEY_GRAVE,
        _ => KEY_SPACE,
    }
}

/// Whether Shift has to be held for a printable character.
pub open spec fn needs_shift(c: char) -> bool {
    faces(code_for(c)) matches Some((alone, _)) && alone != c
}

/// A key types nothing but printable characters of ASCII, with Shift or without.
pub proof fn law_keys_type_printable(key: Key, shifted: bool)
    ensures
        key_char(key, shifted) matches Some(c) ==> is_printable(c),
{
}

/// Every printable character of ASCII can be typed.
pub proof fn law_printable_has_key(c: char)
    requires
        is_printable(c),
    ensures
        key_char(Key { code: code_for(c) }, needs_shift(c)) == Some(c),
{
}

/// A key that types a character types one with Shift and one without, and of a letter Shift makes
/// the capital.
pub proof fn law_shift_makes_capitals(key: Key)
    ensures
        key_char(key, false) is Some <==> key_char(key, true) is Some,
        key_char(key, false) matches Some(c) ==> ('a' <= c <= 'z' ==> (key_char(
            key,
            true,
        ) matches Some(capital) && capital as u32 + 32 == c as u32)),
{
}

/// No character is typed in two ways, but for the space, which Shift leaves as it is.
pub proof fn law_one_key_per_char(a: Key, a_shifted: bool, b: Key, b_shifted: bool)
    requires
        key_char(a, a_shifted) is Some,
        key_char(a, a_shifted) == key_char(b, b_shifted),
    ensures
        a == b,
        a_shifted == b_shifted || a.code == KEY_SPACE,
{
    lemma_code_for(a, a_shifted);
    lemma_code_for(b, b_shifted);
}

proof fn lemma_code_for(key: Key, shifted: bool)
    requires
        key_char(key, shifted) is Some,
    ensures
        key.code == code_for(key_char(key, shifted)->0),
        key.code == KEY_SPACE || shifted == needs_shift(key_char(key, shifted)->0),
{
}

/// The keys that steer the typing type no character themselves.
pub proof fn law_control_keys_type_nothing(key: Key, shifted: bool)
    requires
        is_shift(key) || key.code == KEY_BACKSPACE || key.code == KEY_ENTER,
    ensures
        key_char(key, shifted) is None,
{
}

} // verus!
