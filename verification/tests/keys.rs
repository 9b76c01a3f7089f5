use chaplin_click::keys::{key_to_char, Key, KEY_BACKSPACE, KEY_ENTER, KEY_LEFTSHIFT, KEY_RIGHTSHIFT};
use std::collections::BTreeSet;

fn layout() -> Vec<(evdev::Key, char, char)> {
    vec![
        (evdev::Key::KEY_A, 'a', 'A'),
        (evdev::Key::KEY_B, 'b', 'B'),
        (evdev::Key::KEY_C, 'c', 'C'),
        (evdev::Key::KEY_D, 'd', 'D'),
        (evdev::Key::KEY_E, 'e', 'E'),
        (evdev::Key::KEY_F, 'f', 'F'),
        (evdev::Key::KEY_G, 'g', 'G'),
        (evdev::Key::KEY_H, 'h', 'H'),
        (evdev::Key::KEY_I, 'i', 'I'),
        (evdev::Key::KEY_J, 'j', 'J'),
        (evdev::Key::KEY_K, 'k', 'K'),
        (evdev::Key::KEY_L, 'l', 'L'),
        (evdev::Key::KEY_M, 'm', 'M'),
        (evdev::Key::KEY_N, 'n', 'N'),
        (evdev::Key::KEY_O, 'o', 'O'),
        (evdev::Key::KEY_P, 'p', 'P'),
        (evdev::Key::KEY_Q, 'q', 'Q'),
        (evdev::Key::KEY_R, 'r', 'R'),
        (evdev::Key::KEY_S, 's', 'S'),
        (evdev::Key::KEY_T, 't', 'T'),
        (evdev::Key::KEY_U, 'u', 'U'),
        (evdev::Key::KEY_V, 'v', 'V'),
        (evdev::Key::KEY_W, 'w', 'W'),
        (evdev::Key::KEY_X, 'x', 'X'),
        (evdev::Key::KEY_Y, 'y', 'Y'),
        (evdev::Key::KEY_Z, 'z', 'Z'),
        (evdev::Key::KEY_0, '0', ')'),
        (evdev::Key::KEY_1, '1', '!'),
        (evdev::Key::KEY_2, '2', '@'),
        (evdev::Key::KEY_3, '3', '#'),
        (evdev::Key::KEY_4, '4', '$'),
        (evdev::Key::KEY_5, '5', '%'),
        (evdev::Key::KEY_6, '6', '^'),
        (evdev::Key::KEY_7, '7', '&'),
        (evdev::Key::KEY_8, '8', '*'),
        (evdev::Key::KEY_9, '9', '('),
        (evdev::Key::KEY_SPACE, ' ', ' '),
        (evdev::Key::KEY_DOT, '.', '>'),
        (evdev::Key::KEY_COMMA, ',', '<'),
        (evdev::Key::KEY_SEMICOLON, ';', ':'),
        (evdev::Key::KEY_APOSTROPHE, '\'', '"'),
        (evdev::Key::KEY_SLASH, '/', '?'),
        (evdev::Key::KEY_MINUS, '-', '_'),
        (evdev::Key::KEY_EQUAL, '=', '+'),
        (evdev::Key::KEY_LEFTBRACE, '[', '{'),
        (evdev::Key::KEY_RIGHTBRACE, ']', '}'),
        (evdev::Key::KEY_BACKSLASH, '\\', '|'),
        (evdev::Key::KEY_GRAVE, '`', '~'),
    ]
}

#[test]
fn every_key_types_its_two_characters() {
    for (key, alone, with_shift) in layout() {
        assert_eq!(key_to_char(Key::new(key.code()), false), Some(alone));
        assert_eq!(key_to_char(Key::new(key.code()), true), Some(with_shift));
    }
}

#[test]
fn no_other_key_types_a_character() {
    let typing: Vec<u16> = layout().iter().map(|row| row.0.code()).collect();
    for code in 0..=u16::MAX {
        if !typing.contains(&code) {
            assert_eq!(key_to_char(Key::new(code), false), None);
            assert_eq!(key_to_char(Key::new(code), true), None);
        }
    }
}

#[test]
fn the_keys_type_all_of_printable_ascii() {
    let mut typed: BTreeSet<char> = BTreeSet::new();
    for code in 0..=u16::MAX {
        typed.extend(key_to_char(Key::new(code), false));
        typed.extend(key_to_char(Key::new(code), true));
    }
    let printable: BTreeSet<char> = (' '..='~').collect();
    assert_eq!(typed, printable);
}

#[test]
fn control_keys_have_the_codes_of_the_kernel() {
    assert_eq!(KEY_BACKSPACE, evdev::Key::KEY_BACKSPACE.code());
    assert_eq!(KEY_ENTER, evdev::Key::KEY_ENTER.code());
    assert_eq!(KEY_LEFTSHIFT, evdev::Key::KEY_LEFTSHIFT.code());
    assert_eq!(KEY_RIGHTSHIFT, evdev::Key::KEY_RIGHTSHIFT.code());
}

#[test]
fn some_keys_by_name() {
    assert_eq!(key_to_char(Key::new(evdev::Key::KEY_1.code()), true), Some('!'));
    assert_eq!(key_to_char(Key::new(evdev::Key::KEY_SLASH.code()), true), Some('?'));
    assert_eq!(key_to_char(Key::new(evdev::Key::KEY_SPACE.code()), true), Some(' '));
    assert_eq!(key_to_char(Key::new(evdev::Key::KEY_ESC.code()), false), None);
    assert_eq!(key_to_char(Key::new(evdev::Key::KEY_TAB.code()), false), None);
}
