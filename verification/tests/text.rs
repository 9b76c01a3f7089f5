use chaplin_click::text::{chars_of, contains, same_text, starts_with, trim, white_space};

#[test]
fn white_space_is_what_unicode_says() {
    for c in '\0'..=char::MAX {
        assert_eq!(white_space(c), c.is_whitespace(), "{:?}", c);
    }
}

#[test]
fn trimming_takes_white_space_off_both_ends() {
    for s in [
        "", " ", "\n", "a", " a", "a ", "  click the icon. ", "\t x y \r\n", "\u{3000}é\u{a0}",
        "\u{85}\u{2028}", "no change", "\u{200b}zero width stays\u{200b}",
    ] {
        assert_eq!(trim(s), s.trim());
    }
    assert_eq!(trim("  click the icon. "), "click the icon.");
}

#[test]
fn characters_come_in_order() {
    assert_eq!(chars_of("aé字"), vec!['a', 'é', '字']);
    assert!(chars_of("").is_empty());
}

#[test]
fn beginnings_and_occurrences() {
    for s in ["", "e", "event", "event0", "mouse0", "an event", "eventevent", "evéent"] {
        for p in ["", "event", "e", "vent", "é", "event00"] {
            assert_eq!(starts_with(s, p), s.starts_with(p));
            assert_eq!(contains(s, p), s.contains(p));
        }
    }
    assert!(contains("py-evdev-uinput", "uinput"));
    assert!(!contains("uinpu", "uinput"));
}

#[test]
fn sameness_is_character_for_character() {
    assert!(same_text("quit", "quit"));
    assert!(!same_text("quit", "quits"));
    assert!(!same_text("quit", "exit"));
    assert!(same_text("", ""));
}
