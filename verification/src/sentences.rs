//! Gathering typed characters into sentences.

use crate::input::{event_key, key_of, RawEvent, PRESSED, RELEASED};
use crate::keys::{
    is_printable, is_shift, key_char, key_to_char, Key, KEY_BACKSPACE, KEY_ENTER, KEY_LEFTSHIFT,
    KEY_RIGHTSHIFT,
};
use crate::text::{is_white_space, law_trimmed, law_trimmed_behind, trim, trimmed};
use vstd::prelude::*;

verus! {

/// `String::push`: the character goes to the end of the string.
pub assume_specification[ String::push ](s: &mut String, ch: char)
    ensures
        final(s)@ == old(s)@.push(ch),
;

/// `String::pop`: the last character leaves the string and is handed back; an empty string
/// stays as it is.
pub assume_specification[ String::pop ](s: &mut String) -> (r: Option<char>)
    ensures
        old(s)@.len() == 0 ==> r is None && final(s)@ == old(s)@,
        old(s)@.len() > 0 ==> r == Some(old(s)@.last()) && final(s)@ == old(s)@.drop_last(),
;

/// `String::clear`: nothing is left in the string.
pub assume_specification[ String::clear ](s: &mut String)
    ensures
        final(s)@ == Seq::<char>::empty(),
;

/// What has been typed since the last sentence, and whether Shift is held.
pub struct Typing {
    pub text: Seq<char>,
    pub shift: bool,
}

/// The marks that end a sentence.
pub open spec fn ends_sentence(c: char) -> bool {
    c == '.' || c == '?' || c == '!'
}

/// Whether a space has just been typed behind a mark that ends a sentence.
pub open spec fn is_complete(text: Seq<char>) -> bool {
    &&& text.len() > 0
    &&& text.last() == ' '
    &&& trimmed(text).len() > 0
    &&& ends_sentence(trimmed(text).last())
}

/// A character is typed: the text grows by it, and leaves as a sentence if that completes it.
pub open spec fn type_char(t: Typing, c: char) -> (Typing, Option<Seq<char>>) {
    let text = t.text.push(c);
    if is_complete(text) {
        (Typing { text: Seq::empty(), ..t }, Some(trimmed(text)))
    } else {
        (Typing { text, ..t }, None)
    }
}

/// Enter is typed: the text leaves as a sentence, unless it is blank, and starts anew.
pub open spec fn type_enter(t: Typing) -> (Typing, Option<Seq<char>>) {
    let sentence = trimmed(t.text);
    (
        Typing { text: Seq::empty(), ..t },
        if sentence.len() > 0 {
            Some(sentence)
        } else {
            None
        },
    )
}

/// Backspace is typed: the last character goes.
pub open spec fn type_backspace(t: Typing) -> Typing {
    Typing {
        text: if t.text.len() > 0 {
            t.text.drop_last()
        } else {
            t.text
        },
        ..t
    }
}

/// What an event on a key does, and the sentence that leaves with it. The value is zero for a
/// key that goes up, one for a key that goes down, and two for a key that repeats. Shift is
/// held until it goes up; of the other keys only the going down counts.
pub open spec fn after_key(t: Typing, key: Key, value: i32) -> (Typing, Option<Seq<char>>) {
    if is_shift(key) {
        (Typing { shift: value != RELEASED, ..t }, None)
    } else if value != PRESSED {
        (t, None)
    } else if key.code == KEY_BACKSPACE {
        (type_backspace(t), None)
    } else if key.code == KEY_ENTER {
        type_enter(t)
    } else {
        match key_char(key, t.shift) {
            Some(c) => type_char(t, c),
            None => (t, None),
        }
    }
}

/// What an input event does. One that is about no key does nothing.
pub open spec fn after_event(t: Typing, event: RawEvent) -> (Typing, Option<Seq<char>>) {
    match event_key(event) {
        Some(key) => after_key(t, key, event.value),
        None => (t, None),
    }
}

/// A sentence, if there is one, as a sequence.
pub open spec fn as_seq(sentence: Option<Seq<char>>) -> Seq<Seq<char>> {
    match sentence {
        Some(s) => seq![s],
        None => Seq::empty(),
    }
}

/// What a run of input events does, and all the sentences that leave, in their order.
pub open spec fn after_events(t: Typing, events: Seq<RawEvent>) -> (Typing, Seq<Seq<char>>)
    decreases events.len(),
{
    if events.len() == 0 {
        (t, Seq::empty())
    } else {
        let (next, sentence) = after_event(t, events[0]);
        let (end, rest) = after_events(next, events.drop_first());
        (end, as_seq(sentence) + rest)
    }
}

/// Whether a text could be waiting to be completed: it is printable, and no mark in it that
/// ends a sentence has a space behind it.
pub open spec fn is_open(text: Seq<char>) -> bool {
    &&& forall|i: int| 0 <= i < text.len() ==> is_printable(#[trigger] text[i])
    &&& forall|i: int, j: int|
        0 <= i && j == i + 1 && j < text.len() && ends_sentence(#[trigger] text[i])
            ==> #[trigger] text[j] != ' '
}

/// The typing as it begins: nothing typed, and Shift not held.
pub open spec fn blank() -> Typing {
    Typing { text: Seq::empty(), shift: false }
}

/// The text of the sentence that is being typed.
pub struct SentenceBuffer {
    text: String,
    shift_held: bool,
}

impl View for SentenceBuffer {
    type V = Typing;

    closed spec fn view(&self) -> Typing {
        Typing { text: self.text@, shift: self.shift_held }
    }
}

impl SentenceBuffer {
    /// The text is one that waits to be completed.
    pub open spec fn wf(&self) -> bool {
        is_open(self@.text)
    }

    /// Nothing typed yet.
    pub fn new() -> (r: SentenceBuffer)
        ensures
            r.wf(),
            r@ == blank(),
    {
        SentenceBuffer { text: String::new(), shift_held: false }
    }

    /// The text typed since the last sentence.
    pub fn text(&self) -> (r: &str)
        ensures
            r@ == self@.text,
    {
        self.text.as_str()
    }

    /// Takes in an input event, and hands out the sentence that it completes.
    pub fn event(&mut self, event: RawEvent) -> (r: Option<String>)
        requires
            old(self).wf(),
        ensures
            final(self).wf(),
            (final(self)@, r.deep_view()) == after_event(old(self)@, event),
    {
        match key_of(event) {
            Some(key) => self.key_event(key, event.value),
            None => None,
        }
    }

    /// Takes in an event on a key, and hands out the sentence that it completes.
    pub fn key_event(&mut self, key: Key, value: i32) -> (r: Option<String>)
        requires
            old(self).wf(),
        ensures
            final(self).wf(),
            (final(self)@, r.deep_view()) == after_key(old(self)@, key, value),
    {
        if key.code == KEY_LEFTSHIFT || key.code == KEY_RIGHTSHIFT {
            self.shift_held = value != RELEASED;
            return None;
        }
        if value != PRESSED {
            return None;
        }
        if key.code == KEY_BACKSPACE {
            self.text.pop();
            return None;
        }
        if key.code == KEY_ENTER {
            return self.enter();
        }
        match key_to_char(key, self.shift_held) {
            Some(c) => self.push(c),
            None => None,
        }
    }

    fn enter(&mut self) -> (r: Option<String>)
        ensures
            final(self).wf(),
            (final(self)@, r.deep_view()) == type_enter(old(self)@),
    {
        let sentence: String = trim(self.text.as_str()).to_string();
        self.text.clear();
        if sentence.as_str().is_empty() {
            None
        } else {
            Some(sentence)
        }
    }

    fn push(&mut self, c: char) -> (r: Option<String>)
        requires
            old(self).wf(),
            is_printable(c),
        ensures
            final(self).wf(),
            (final(self)@, r.deep_view()) == type_char(old(self)@, c),
    {
        proof {
            lemma_push(old(self)@.text, c);
        }
        self.text.push(c);
        if c == ' ' && self.text.as_str().unicode_len() >= 2 {
            let sentence: &str = trim(self.text.as_str());
            let length: usize = sentence.unicode_len();
            if length > 0 {
                let last: char = sentence.get_char(length - 1);
                if last == '.' || last == '?' || last == '!' {
                    let sentence: String = sentence.to_string();
                    self.text.clear();
                    return Some(sentence);
                }
            }
        }
        None
    }
}

/// While a text waits to be completed, a space completes it exactly if a mark that ends a
/// sentence stands right before the space.
pub proof fn law_boundary(text: Seq<char>)
    requires
        is_open(text),
    ensures
        is_complete(text.push(' ')) <==> text.len() > 0 && ends_sentence(text.last()),
        is_complete(text.push(' ')) ==> trimmed(text.push(' ')).last() == text.last(),
{
    law_trimmed_behind(text, ' ');
    law_trimmed(text);
    let (lead, end) = choose|lead: int, end: int|
        {
            &&& 0 <= lead <= end <= text.len()
            &&& trimmed(text) == #[trigger] text.subrange(lead, end)
            &&& forall|i: int| 0 <= i < lead ==> is_white_space(#[trigger] text[i])
            &&& forall|i: int| end <= i < text.len() ==> is_white_space(#[trigger] text[i])
        };
    if end < text.len() {
        assert(is_printable(text[end]) && is_white_space(text[end]));
        if lead < end {
            assert(trimmed(text).last() == text[end - 1]);
        }
        assert(is_white_space(text[text.len() - 1]));
    } else if lead == end && text.len() > 0 {
        assert(is_white_space(text[text.len() - 1]));
    }
}

/// Typing a character leaves a text that waits to be completed.
proof fn lemma_push(text: Seq<char>, c: char)
    requires
        is_open(text),
        is_printable(c),
    ensures
        is_complete(text.push(c)) || is_open(text.push(c)),
        text.len() == 0 ==> !is_complete(text.push(c)),
{
    law_boundary(text);
}

} // verus!
