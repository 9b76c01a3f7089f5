use chaplin_click::input::{key_of, RawEvent, EV_KEY, PRESSED, RELEASED};
use chaplin_click::keys::{
    key_to_char, Key, KEY_A, KEY_BACKSPACE, KEY_DOT, KEY_ENTER, KEY_LEFTSHIFT, KEY_RIGHTSHIFT,
    KEY_SPACE,
};
use chaplin_click::sentences::SentenceBuffer;

const REPEATED: i32 = 2;

fn on_key(code: u16, value: i32) -> RawEvent {
    RawEvent { event_type: EV_KEY, code, value }
}

fn strokes(text: &str) -> Vec<RawEvent> {
    let mut events = Vec::new();
    for c in text.chars() {
        let code = (0..256u16)
            .find(|code| {
                key_to_char(Key::new(*code), false) == Some(c)
                    || key_to_char(Key::new(*code), true) == Some(c)
            })
            .unwrap();
        let shift = key_to_char(Key::new(code), false) != Some(c);
        if shift {
            events.push(on_key(KEY_LEFTSHIFT, PRESSED));
        }
        events.push(on_key(code, PRESSED));
        events.push(RawEvent { event_type: 0, code: 0, value: 0 });
        events.push(on_key(code, RELEASED));
        if shift {
            events.push(on_key(KEY_LEFTSHIFT, RELEASED));
        }
    }
    events
}

fn feed(buffer: &mut SentenceBuffer, events: &[RawEvent]) -> Vec<String> {
    events.iter().filter_map(|event| buffer.event(*event)).collect()
}

fn typed(text: &str) -> (Vec<String>, String) {
    let mut buffer = SentenceBuffer::new();
    let sent = feed(&mut buffer, &strokes(text));
    (sent, buffer.text().to_string())
}

fn pair(sent: &[&str], left: &str) -> (Vec<String>, String) {
    (sent.iter().map(|s| s.to_string()).collect(), left.to_string())
}

#[test]
fn a_mark_and_a_space_complete_a_sentence() {
    assert_eq!(typed("Click the settings icon. "), pair(&["Click the settings icon."], ""));
    assert_eq!(typed("Where is it? "), pair(&["Where is it?"], ""));
    assert_eq!(typed("Stop! "), pair(&["Stop!"], ""));
}

#[test]
fn sentences_leave_one_by_one() {
    assert_eq!(
        typed("Open the menu.   Click \"Save\"! done"),
        pair(&["Open the menu.", "Click \"Save\"!"], "done")
    );
}

#[test]
fn a_mark_without_a_space_completes_nothing() {
    assert_eq!(typed("version 1.2"), pair(&[], "version 1.2"));
    assert_eq!(typed("end."), pair(&[], "end."));
    assert_eq!(typed("comma, "), pair(&[], "comma, "));
    assert_eq!(typed("why?no"), pair(&[], "why?no"));
}

#[test]
fn spaces_alone_complete_nothing() {
    assert_eq!(typed(" "), pair(&[], " "));
    assert_eq!(typed("   "), pair(&[], "   "));
    assert_eq!(typed(". "), pair(&["."], ""));
    assert_eq!(typed("  ok. "), pair(&["ok."], ""));
}

#[test]
fn enter_sends_what_is_there() {
    let mut buffer = SentenceBuffer::new();
    feed(&mut buffer, &strokes("  the blue button "));
    assert_eq!(
        buffer.event(on_key(KEY_ENTER, PRESSED)),
        Some("the blue button".to_string())
    );
    assert_eq!(buffer.text(), "");
    assert_eq!(buffer.event(on_key(KEY_ENTER, PRESSED)), None);
    feed(&mut buffer, &strokes("   "));
    assert_eq!(buffer.event(on_key(KEY_ENTER, PRESSED)), None);
    assert_eq!(buffer.text(), "");
}

#[test]
fn backspace_takes_the_last_character() {
    let mut buffer = SentenceBuffer::new();
    assert_eq!(buffer.event(on_key(KEY_BACKSPACE, PRESSED)), None);
    feed(&mut buffer, &strokes("ab"));
    buffer.event(on_key(KEY_BACKSPACE, PRESSED));
    assert_eq!(buffer.text(), "a");
    feed(&mut buffer, &strokes("c.x"));
    buffer.event(on_key(KEY_BACKSPACE, PRESSED));
    assert_eq!(feed(&mut buffer, &strokes(" ")), vec!["ac.".to_string()]);
}

#[test]
fn releases_and_repeats_type_nothing() {
    let mut buffer = SentenceBuffer::new();
    buffer.event(on_key(KEY_A, RELEASED));
    buffer.event(on_key(KEY_A, REPEATED));
    buffer.event(on_key(KEY_BACKSPACE, REPEATED));
    buffer.event(on_key(KEY_ENTER, RELEASED));
    assert_eq!(buffer.text(), "");
    buffer.event(on_key(KEY_A, PRESSED));
    buffer.event(on_key(KEY_A, REPEATED));
    assert_eq!(buffer.text(), "a");
}

#[test]
fn shift_is_held_until_it_is_released() {
    let mut buffer = SentenceBuffer::new();
    buffer.key_event(Key::new(KEY_RIGHTSHIFT), PRESSED);
    buffer.key_event(Key::new(KEY_RIGHTSHIFT), REPEATED);
    buffer.key_event(Key::new(KEY_A), PRESSED);
    buffer.key_event(Key::new(KEY_DOT), PRESSED);
    buffer.key_event(Key::new(KEY_RIGHTSHIFT), RELEASED);
    buffer.key_event(Key::new(KEY_A), PRESSED);
    assert_eq!(buffer.text(), "A>a");
}

#[test]
fn releasing_one_shift_ends_the_other() {
    let mut buffer = SentenceBuffer::new();
    buffer.key_event(Key::new(KEY_LEFTSHIFT), PRESSED);
    buffer.key_event(Key::new(KEY_RIGHTSHIFT), PRESSED);
    buffer.key_event(Key::new(KEY_LEFTSHIFT), RELEASED);
    buffer.key_event(Key::new(KEY_A), PRESSED);
    assert_eq!(buffer.text(), "a");
}

#[test]
fn only_key_events_are_about_keys() {
    for event_type in 0..=u16::MAX {
        let event = RawEvent { event_type, code: KEY_A, value: PRESSED };
        let about_key = event_type == evdev::EventType::KEY.0;
        assert_eq!(key_of(event), if about_key { Some(Key::new(KEY_A)) } else { None });
        let mut buffer = SentenceBuffer::new();
        assert_eq!(buffer.event(event), None);
        assert_eq!(buffer.text(), if about_key { "a" } else { "" });
    }
    assert_eq!(key_of(on_key(700, PRESSED)), Some(Key::new(700)));
}

#[test]
fn batches_make_no_difference() {
    let events = strokes("One two. Three! four");
    let mut whole = SentenceBuffer::new();
    let sent = feed(&mut whole, &events);
    for cut in 0..=events.len() {
        let mut buffer = SentenceBuffer::new();
        let mut parts = feed(&mut buffer, &events[..cut]);
        parts.extend(feed(&mut buffer, &events[cut..]));
        assert_eq!(parts, sent);
        assert_eq!(buffer.text(), whole.text());
    }
}

#[test]
fn a_shifted_space_is_a_space() {
    let mut buffer = SentenceBuffer::new();
    feed(&mut buffer, &strokes("Hi!"));
    buffer.key_event(Key::new(KEY_LEFTSHIFT), PRESSED);
    assert_eq!(buffer.key_event(Key::new(KEY_SPACE), PRESSED), Some("Hi!".to_string()));
}

#[test]
fn a_text_is_cut_behind_each_space_after_a_mark() {
    assert_eq!(
        typed("a.  b? c!d. . ! e.. f"),
        pair(&["a.", "b?", "c!d.", ".", "!", "e.."], "f")
    );
    assert_eq!(typed("x. y"), pair(&["x."], "y"));
    assert_eq!(typed("x .y z? "), pair(&["x .y z?"], ""));
}

#[test]
fn the_right_shift_key_types_the_same_text() {
    let mut buffer = SentenceBuffer::new();
    let events: Vec<RawEvent> = strokes("Really? Go")
        .into_iter()
        .map(|event| {
            if event.code == KEY_LEFTSHIFT {
                on_key(KEY_RIGHTSHIFT, event.value)
            } else {
                event
            }
        })
        .collect();
    assert_eq!(feed(&mut buffer, &events), vec!["Really?".to_string()]);
    assert_eq!(buffer.text(), "Go");
}
