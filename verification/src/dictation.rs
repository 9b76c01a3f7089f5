//! What the gathering of sentences promises: what is typed is what leaves.

use crate::input::{event_key, RawEvent, EV_KEY, PRESSED, RELEASED};
use crate::keys::{
    code_for, is_printable, is_shift, key_char, law_control_keys_type_nothing,
    law_keys_type_printable, law_printable_has_key, needs_shift, Key, KEY_BACKSPACE, KEY_ENTER,
    KEY_LEFTSHIFT, KEY_RIGHTSHIFT,
};
use crate::sentences::{
    after_event, after_events, as_seq, blank, ends_sentence, is_complete, is_open,
    law_boundary, type_char, type_enter, Typing,
};
use crate::text::{is_white_space, law_trimmed, law_trimmed_behind, law_trimmed_twice, trimmed};
use vstd::prelude::*;

verus! {

/// Whether an event is one of those that change the text other than by a character: Enter or
/// Backspace that goes down.
pub open spec fn is_editing(event: RawEvent) -> bool {
    event_key(event) matches Some(key) && event.value == PRESSED && (key.code == KEY_ENTER
        || key.code == KEY_BACKSPACE)
}

/// Whether Shift is held after some events: whether the latest of those on Shift is not its
/// going up.
pub open spec fn shift_after(events: Seq<RawEvent>) -> bool
    decreases events.len(),
{
    if events.len() == 0 {
        false
    } else {
        match event_key(events.last()) {
            Some(key) if is_shift(key) => events.last().value != RELEASED,
            _ => shift_after(events.drop_last()),
        }
    }
}

/// The character that an event types, if it types one, with Shift held or not.
pub open spec fn char_typed(event: RawEvent, shifted: bool) -> Option<char> {
    match event_key(event) {
        Some(key) if event.value == PRESSED => key_char(key, shifted),
        _ => None,
    }
}

/// The characters that events type, one after the other.
pub open spec fn text_typed(events: Seq<RawEvent>) -> Seq<char>
    decreases events.len(),
{
    if events.len() == 0 {
        Seq::empty()
    } else {
        let before = events.drop_last();
        match char_typed(events.last(), shift_after(before)) {
            Some(c) => text_typed(before).push(c),
            None => text_typed(before),
        }
    }
}

/// Whether a text ends with a space that has a mark before it which ends a sentence.
pub open spec fn ends_at_boundary(text: Seq<char>) -> bool {
    text.len() >= 2 && text.last() == ' ' && ends_sentence(text[text.len() - 2])
}

/// A text, cut right behind each space that has a mark before it which ends a sentence: the
/// pieces, and the rest behind the last cut.
pub open spec fn cut(text: Seq<char>) -> (Seq<Seq<char>>, Seq<char>)
    decreases text.len(),
{
    if text.len() == 0 {
        (Seq::empty(), Seq::empty())
    } else {
        let (pieces, rest) = cut(text.drop_last());
        let piece = rest.push(text.last());
        if ends_at_boundary(text) {
            (pieces.push(piece), Seq::empty())
        } else {
            (pieces, piece)
        }
    }
}

/// The texts without the spaces at their ends.
pub open spec fn all_trimmed(texts: Seq<Seq<char>>) -> Seq<Seq<char>> {
    texts.map_values(|s: Seq<char>| trimmed(s))
}

/// An event on a key.
pub open spec fn key_event(code: u16, value: i32) -> RawEvent {
    RawEvent { event_type: EV_KEY, code, value }
}

/// The events with which a keyboard types a character: its key goes down and up, between the
/// going down and up of Shift where the character needs it.
pub open spec fn strokes(c: char) -> Seq<RawEvent> {
    let key = seq![key_event(code_for(c), PRESSED), key_event(code_for(c), RELEASED)];
    if needs_shift(c) {
        seq![key_event(KEY_LEFTSHIFT, PRESSED)] + key + seq![key_event(KEY_LEFTSHIFT, RELEASED)]
    } else {
        key
    }
}

/// The events with which a keyboard types a text.
pub open spec fn strokes_of(text: Seq<char>) -> Seq<RawEvent>
    decreases text.len(),
{
    if text.len() == 0 {
        Seq::empty()
    } else {
        strokes_of(text.drop_last()) + strokes(text.last())
    }
}

/// The events with which a keyboard types sentences, with a space behind each.
pub open spec fn strokes_of_all(sentences: Seq<Seq<char>>) -> Seq<RawEvent>
    decreases sentences.len(),
{
    if sentences.len() == 0 {
        Seq::empty()
    } else {
        strokes_of_all(sentences.drop_last()) + strokes_of(sentences.last().push(' '))
    }
}

/// Whether a text is one sentence: printable, with a mark at its end that ends it, and none
/// before that which has a space behind it.
pub open spec fn is_sentence(text: Seq<char>) -> bool {
    &&& is_open(text)
    &&& text.len() > 0
    &&& ends_sentence(text.last())
}

/// Whether a text can be sent: it is printable, and so takes one line, no mark in it that ends
/// a sentence has a space behind it, it is not empty, and it has no space at its ends.
pub open spec fn is_sendable(text: Seq<char>) -> bool {
    &&& is_open(text)
    &&& text.len() > 0
    &&& trimmed(text) == text
}

/// It makes no difference how a run of events is cut into batches.
pub proof fn law_batches(t: Typing, first: Seq<RawEvent>, second: Seq<RawEvent>)
    ensures
        ({
            let (middle, early) = after_events(t, first);
            let (end, late) = after_events(middle, second);
            after_events(t, first + second) == (end, early + late)
        }),
    decreases first.len(),
{
    if first.len() == 0 {
        assert(first + second == second);
        assert(after_events(t, first).1 + after_events(t, second).1 == after_events(t, second).1);
    } else {
        let (next, sentence) = after_event(t, first[0]);
        law_batches(next, first.drop_first(), second);
        assert((first + second).drop_first() == first.drop_first() + second);
        let (middle, early) = after_events(next, first.drop_first());
        let late = after_events(middle, second).1;
        assert(as_seq(sentence) + (early + late) == (as_seq(sentence) + early) + late);
    }
}

/// No event leaves a mark that ends a sentence with a space behind it in the text, and a
/// sentence that leaves with an event can be sent.
pub proof fn law_event_keeps_order(t: Typing, event: RawEvent)
    requires
        is_open(t.text),
    ensures
        is_open(after_event(t, event).0.text),
        after_event(t, event).1 matches Some(s) ==> is_sendable(s),
{
    if let Some(key) = event_key(event) {
        law_keys_type_printable(key, t.shift);
        law_boundary(t.text);
        law_trimmed_behind(t.text, ' ');
        if trimmed(t.text).len() > 0 {
            lemma_trimmed_is_sendable(t.text);
        }
    }
}

/// Whatever the events, the text in waiting never holds a mark that ends a sentence with a
/// space behind it, and every sentence that leaves can be sent.
pub proof fn law_only_sendable_leaves(t: Typing, events: Seq<RawEvent>)
    requires
        is_open(t.text),
    ensures
        is_open(after_events(t, events).0.text),
        forall|i: int|
            0 <= i < after_events(t, events).1.len() ==> is_sendable(
                #[trigger] after_events(t, events).1[i],
            ),
    decreases events.len(),
{
    if events.len() > 0 {
        let (next, sentence) = after_event(t, events[0]);
        law_event_keeps_order(t, events[0]);
        law_only_sendable_leaves(next, events.drop_first());
    }
}

/// Whether an event is on something else than a key, or on a key that goes up or repeats and
/// is not Shift.
pub open spec fn is_idle(event: RawEvent) -> bool {
    event_key(event) matches Some(key) ==> !is_shift(key) && event.value != PRESSED
}

/// The events that are not idle.
pub open spec fn without_idle(events: Seq<RawEvent>) -> Seq<RawEvent>
    decreases events.len(),
{
    if events.len() == 0 {
        events
    } else if is_idle(events[0]) {
        without_idle(events.drop_first())
    } else {
        seq![events[0]] + without_idle(events.drop_first())
    }
}

/// Idle events make no difference.
pub proof fn law_idle_events(t: Typing, events: Seq<RawEvent>)
    ensures
        after_events(t, events) == after_events(t, without_idle(events)),
    decreases events.len(),
{
    if events.len() > 0 {
        let rest = events.drop_first();
        let (next, sentence) = after_event(t, events[0]);
        law_idle_events(next, rest);
        if is_idle(events[0]) {
            let sent = after_events(t, rest).1;
            assert(as_seq(None) + sent == sent);
        } else {
            let kept = seq![events[0]] + without_idle(rest);
            assert(kept.drop_first() == without_idle(rest));
        }
    }
}

/// Whatever is typed, without Enter and Backspace, leaves piece by piece: the text that the
/// keys type is cut right behind each space that has a mark before it which ends a sentence, the
/// pieces leave in their order, without the spaces at their ends, and the rest stays.
pub proof fn law_typed_text_leaves(events: Seq<RawEvent>)
    requires
        forall|i: int| 0 <= i < events.len() ==> !is_editing(#[trigger] events[i]),
    ensures
        after_events(blank(), events) == (
            Typing { text: cut(text_typed(events)).1, shift: shift_after(events) },
            all_trimmed(cut(text_typed(events)).0),
        ),
    decreases events.len(),
{
    let text = text_typed(events);
    let (pieces, rest) = cut(text);
    if events.len() == 0 {
        assert(all_trimmed(pieces) == Seq::<Seq<char>>::empty());
    } else {
        let before = events.drop_last();
        let last = events.last();
        assert(before + seq![last] == events);
        assert forall|i: int| 0 <= i < before.len() implies !is_editing(#[trigger] before[i]) by {
            assert(before[i] == events[i]);
        }
        law_typed_text_leaves(before);
        law_batches(blank(), before, seq![last]);
        let (t, sent) = after_events(blank(), before);
        lemma_one_event(t, last);
        law_only_sendable_leaves(blank(), before);
        assert(!is_editing(events[events.len() - 1]));
        match char_typed(last, t.shift) {
            Some(c) => {
                lemma_typing_key(Key { code: last.code }, t.shift);
                let typed = text_typed(before);
                assert(text.drop_last() == typed);
                lemma_cut(typed);
                law_boundary(t.text);
                assert(is_complete(t.text.push(c)) <==> ends_at_boundary(text));
                if ends_at_boundary(text) {
                    assert(all_trimmed(pieces) == sent + seq![trimmed(t.text.push(c))]);
                } else {
                    assert(sent + as_seq(None) == sent);
                }
            },
            None => {
                assert(sent + as_seq(None) == sent);
            },
        }
    }
}

/// The rest behind the last cut ends as the text does, and is empty only where nothing is left
/// behind a cut.
proof fn lemma_cut(text: Seq<char>)
    ensures
        cut(text).1.len() > 0 ==> text.len() > 0 && cut(text).1.last() == text.last(),
        cut(text).1.len() == 0 ==> text.len() == 0 || text.last() == ' ',
{
}

/// Backspace undoes the typing of a character that has completed no sentence.
pub proof fn law_backspace_undoes(t: Typing, key: Key)
    requires
        key_char(key, t.shift) matches Some(c) && !is_complete(t.text.push(c)),
    ensures
        after_events(
            t,
            seq![key_event(key.code, PRESSED), key_event(KEY_BACKSPACE, PRESSED)],
        ) == (t, Seq::<Seq<char>>::empty()),
{
    let c = key_char(key, t.shift)->0;
    lemma_typing_key(key, t.shift);
    lemma_two_events(t, key_event(key.code, PRESSED), key_event(KEY_BACKSPACE, PRESSED));
    assert(t.text.push(c).drop_last() == t.text);
}

/// Backspace that goes down takes the last character off the text, whichever it is and whether or
/// not Shift is held, and does nothing to an empty text. Nothing leaves with it.
pub proof fn law_backspace_takes_last(t: Typing)
    ensures
        ({
            let (after, left) = after_event(t, key_event(KEY_BACKSPACE, PRESSED));
            &&& left is None
            &&& after.shift == t.shift
            &&& t.text.len() > 0 ==> after.text.len() == t.text.len() - 1 && t.text == after.text.push(
                t.text.last(),
            )
            &&& t.text.len() == 0 ==> after.text.len() == 0
        }),
{
    if t.text.len() > 0 {
        assert(t.text == t.text.drop_last().push(t.text.last()));
    }
}

/// Backspace undoes the strokes of any character, with the going down and up of Shift among them
/// where the character needs it, unless the character has completed a sentence.
pub proof fn law_backspace_undoes_strokes(t: Typing, c: char)
    requires
        !t.shift,
        is_open(t.text),
        is_printable(c),
        c == ' ' ==> t.text.len() == 0 || !(t.text.last() == '.' || t.text.last() == '?'
            || t.text.last() == '!'),
    ensures
        after_events(t, strokes(c).push(key_event(KEY_BACKSPACE, PRESSED))) == (
            t,
            Seq::<Seq<char>>::empty(),
        ),
{
    let backspace = key_event(KEY_BACKSPACE, PRESSED);
    lemma_strokes(t, c);
    law_boundary(t.text);
    law_batches(t, strokes(c), seq![backspace]);
    assert(strokes(c).push(backspace) == strokes(c) + seq![backspace]);
    let typed = type_char(t, c).0;
    lemma_one_event(typed, backspace);
    assert(t.text.push(c).drop_last() == t.text);
    assert(Seq::<Seq<char>>::empty() + Seq::<Seq<char>>::empty() == Seq::<Seq<char>>::empty());
}

/// So many goings down of Backspace.
pub open spec fn backspaces(count: nat) -> Seq<RawEvent> {
    Seq::new(count, |i: int| key_event(KEY_BACKSPACE, PRESSED))
}

/// Backspace that goes down again and again takes the text back from its end, character by
/// character, and nothing leaves.
pub proof fn law_backspaces(t: Typing, count: nat)
    ensures
        after_events(t, backspaces(count)) == (
            Typing {
                text: t.text.take(
                    if count < t.text.len() {
                        t.text.len() - count
                    } else {
                        0
                    },
                ),
                shift: t.shift,
            },
            Seq::<Seq<char>>::empty(),
        ),
    decreases count,
{
    let kept = if count < t.text.len() {
        t.text.len() - count
    } else {
        0
    };
    if count == 0 {
        assert(t.text.take(kept) == t.text);
    } else {
        let less = (count - 1) as nat;
        let backspace = key_event(KEY_BACKSPACE, PRESSED);
        law_backspaces(t, less);
        law_batches(t, backspaces(less), seq![backspace]);
        assert(backspaces(count) == backspaces(less) + seq![backspace]);
        let before = after_events(t, backspaces(less)).0;
        lemma_one_event(before, backspace);
        law_backspace_takes_last(before);
        assert(t.text.take(kept) == after_event(before, backspace).0.text);
        assert(Seq::<Seq<char>>::empty() + as_seq(None) == Seq::<Seq<char>>::empty());
    }
}

/// An event on either Shift key changes nothing but whether Shift is held: it is held unless the
/// key goes up.
pub proof fn law_shift_keys(t: Typing, code: u16, value: i32)
    requires
        code == KEY_LEFTSHIFT || code == KEY_RIGHTSHIFT,
    ensures
        after_event(t, key_event(code, value)) == (
            Typing { text: t.text, shift: value != 0 },
            None::<Seq<char>>,
        ),
{
}

/// An event that is on something else than a key, or on a key other than Shift that does not go
/// down, changes nothing. Nor does the going down of a key that types no character and is none of
/// those that steer the typing.
pub proof fn law_nothing_typed(t: Typing, event: RawEvent)
    requires
        ({
            ||| event.event_type != 1
            ||| event.code != KEY_LEFTSHIFT && event.code != KEY_RIGHTSHIFT && event.value != 1
            ||| event.code != KEY_LEFTSHIFT && event.code != KEY_RIGHTSHIFT && event.code
                != KEY_BACKSPACE && event.code != KEY_ENTER && key_char(
                Key { code: event.code },
                t.shift,
            ) is None
        }),
    ensures
        after_event(t, event) == (t, None::<Seq<char>>),
{
}

/// The going down of a key that types a character adds that character to the text. The text leaves
/// as a sentence, without the spaces at its ends, exactly if the character is a space and the text
/// before it ends with a full stop, a question mark or an exclamation mark. Whether Shift is held
/// stays as it is.
pub proof fn law_character_typed(t: Typing, code: u16, c: char)
    requires
        is_open(t.text),
        key_char(Key { code }, t.shift) == Some(c),
    ensures
        ({
            let (after, left) = after_event(t, key_event(code, PRESSED));
            let completes = c == ' ' && t.text.len() > 0 && (t.text.last() == '.' || t.text.last()
                == '?' || t.text.last() == '!');
            &&& after.shift == t.shift
            &&& completes ==> after.text.len() == 0 && left == Some(trimmed(t.text))
            &&& !completes ==> after.text == t.text.push(c) && left is None
        }),
{
    lemma_typing_key(Key { code }, t.shift);
    law_boundary(t.text);
    law_trimmed_behind(t.text, ' ');
}

/// Enter that goes down empties the text, whatever it is and whether or not Shift is held. The text
/// leaves without the white space at its ends, unless it is nothing but white space.
pub proof fn law_enter_empties(t: Typing)
    ensures
        ({
            let (after, left) = after_event(t, key_event(KEY_ENTER, PRESSED));
            &&& after.shift == t.shift
            &&& after.text.len() == 0
            &&& left is None <==> forall|i: int|
                0 <= i < t.text.len() ==> is_white_space(#[trigger] t.text[i])
            &&& left is Some ==> left == Some(trimmed(t.text))
        }),
{
    law_trimmed(t.text);
    let (lead, end) = choose|lead: int, end: int|
        {
            &&& 0 <= lead <= end <= t.text.len()
            &&& trimmed(t.text) == #[trigger] t.text.subrange(lead, end)
            &&& forall|i: int| 0 <= i < lead ==> is_white_space(#[trigger] t.text[i])
            &&& forall|i: int| end <= i < t.text.len() ==> is_white_space(#[trigger] t.text[i])
        };
    if trimmed(t.text).len() > 0 {
        assert(trimmed(t.text)[0] == t.text[lead]);
    }
}

/// A text that holds no completed sentence is gathered as it is typed, and nothing leaves.
pub proof fn law_text_is_gathered(text: Seq<char>)
    requires
        is_open(text),
    ensures
        after_events(blank(), strokes_of(text)) == (
            Typing { text, shift: false },
            Seq::<Seq<char>>::empty(),
        ),
    decreases text.len(),
{
    if text.len() == 0 {
        assert(text == Seq::<char>::empty());
    } else {
        let before = text.drop_last();
        assert(is_open(before)) by {
            assert forall|i: int, j: int|
                0 <= i && j == i + 1 && j < before.len() && ends_sentence(
                    #[trigger] before[i],
                ) implies #[trigger] before[j] != ' ' by {
                assert(text[i] == before[i] && text[j] == before[j]);
            }
        }
        law_text_is_gathered(before);
        let t = Typing { text: before, shift: false };
        assert(before.push(text.last()) == text);
        assert(is_printable(text[text.len() - 1]));
        lemma_strokes(t, text.last());
        law_batches(blank(), strokes_of(before), strokes(text.last()));
        law_boundary(before);
        if before.len() > 0 {
            assert(before.last() == text[text.len() - 2]);
        }
        assert(!is_complete(text));
        assert(Seq::<Seq<char>>::empty() + as_seq(None) == Seq::<Seq<char>>::empty());
    }
}

/// A sentence that is typed with a space behind it leaves as it was typed, without the spaces
/// at its ends, and the typing starts anew.
pub proof fn law_sentence_leaves(text: Seq<char>)
    requires
        is_sentence(text),
    ensures
        after_events(blank(), strokes_of(text.push(' '))) == (blank(), seq![trimmed(text)]),
{
    let t = Typing { text, shift: false };
    law_text_is_gathered(text);
    lemma_strokes(t, ' ');
    law_batches(blank(), strokes_of(text), strokes(' '));
    law_boundary(text);
    law_trimmed_behind(text, ' ');
    assert(text.push(' ').drop_last() == text);
    assert(Seq::<Seq<char>>::empty() + seq![trimmed(text)] == seq![trimmed(text)]);
}

/// Sentences that are typed one after the other, with a space behind each, leave one by one in
/// that order.
pub proof fn law_dictation(sentences: Seq<Seq<char>>)
    requires
        forall|i: int| 0 <= i < sentences.len() ==> is_sentence(#[trigger] sentences[i]),
    ensures
        after_events(blank(), strokes_of_all(sentences)) == (
            blank(),
            all_trimmed(sentences),
        ),
    decreases sentences.len(),
{
    let sent = all_trimmed(sentences);
    if sentences.len() == 0 {
        assert(sent == Seq::<Seq<char>>::empty());
    } else {
        let before = sentences.drop_last();
        law_dictation(before);
        law_sentence_leaves(sentences.last());
        law_batches(blank(), strokes_of_all(before), strokes_of(sentences.last().push(' ')));
        assert(all_trimmed(before) + seq![trimmed(sentences.last())]
            == sent);
    }
}

/// Enter sends a text off that no mark has ended; where nothing but spaces was typed, it sends
/// nothing. Either way the typing starts anew.
pub proof fn law_enter_sends(text: Seq<char>)
    requires
        is_open(text),
    ensures
        after_events(blank(), strokes_of(text).push(key_event(KEY_ENTER, PRESSED))) == (
            blank(),
            if trimmed(text).len() > 0 {
                seq![trimmed(text)]
            } else {
                Seq::empty()
            },
        ),
{
    let enter = key_event(KEY_ENTER, PRESSED);
    let t = Typing { text, shift: false };
    law_text_is_gathered(text);
    law_batches(blank(), strokes_of(text), seq![enter]);
    assert(strokes_of(text).push(enter) == strokes_of(text) + seq![enter]);
    lemma_one_event(t, enter);
    let sent = as_seq(type_enter(t).1);
    assert(Seq::<Seq<char>>::empty() + sent == sent);
}

proof fn lemma_one_event(t: Typing, event: RawEvent)
    ensures
        after_events(t, seq![event]) == (
            after_event(t, event).0,
            as_seq(after_event(t, event).1),
        ),
{
    let next = after_event(t, event).0;
    assert(seq![event].drop_first() == Seq::<RawEvent>::empty());
    assert(after_events(next, Seq::<RawEvent>::empty()) == (next, Seq::<Seq<char>>::empty()));
    assert(as_seq(after_event(t, event).1) + Seq::<Seq<char>>::empty() == as_seq(
        after_event(t, event).1,
    ));
}

proof fn lemma_two_events(t: Typing, first: RawEvent, second: RawEvent)
    ensures
        ({
            let (next, early) = after_event(t, first);
            let (end, late) = after_event(next, second);
            after_events(t, seq![first, second]) == (end, as_seq(early) + as_seq(late))
        }),
{
    lemma_one_event(t, first);
    lemma_one_event(after_event(t, first).0, second);
    law_batches(t, seq![first], seq![second]);
    assert(seq![first] + seq![second] == seq![first, second]);
}

/// A key that types a character is none of those that steer the typing.
proof fn lemma_typing_key(key: Key, shifted: bool)
    requires
        key_char(key, shifted) is Some,
    ensures
        !is_shift(key),
        key.code != KEY_BACKSPACE,
        key.code != KEY_ENTER,
{
    if is_shift(key) || key.code == KEY_BACKSPACE || key.code == KEY_ENTER {
        law_control_keys_type_nothing(key, shifted);
    }
}

/// The strokes of a character type that character.
proof fn lemma_strokes(t: Typing, c: char)
    requires
        !t.shift,
        is_printable(c),
    ensures
        after_events(t, strokes(c)) == (type_char(t, c).0, as_seq(type_char(t, c).1)),
{
    let key = Key { code: code_for(c) };
    let shift = needs_shift(c);
    law_printable_has_key(c);
    lemma_typing_key(key, shift);
    let down = key_event(key.code, PRESSED);
    let up = key_event(key.code, RELEASED);
    let held = Typing { shift, ..t };
    let (typed, sent) = type_char(held, c);
    lemma_two_events(held, down, up);
    assert(as_seq(sent) + as_seq(None) == as_seq(sent));
    assert(after_events(held, seq![down, up]) == (typed, as_seq(sent)));
    if shift {
        let shift_down = key_event(KEY_LEFTSHIFT, PRESSED);
        let shift_up = key_event(KEY_LEFTSHIFT, RELEASED);
        lemma_one_event(t, shift_down);
        lemma_one_event(typed, shift_up);
        law_batches(t, seq![shift_down], seq![down, up]);
        law_batches(t, seq![shift_down] + seq![down, up], seq![shift_up]);
        assert(Seq::<Seq<char>>::empty() + as_seq(sent) + Seq::<Seq<char>>::empty() == as_seq(
            sent,
        ));
    } else {
        assert(held == t);
    }
}

proof fn lemma_trimmed_is_sendable(text: Seq<char>)
    requires
        is_open(text),
        trimmed(text).len() > 0,
    ensures
        is_sendable(trimmed(text)),
{
    law_trimmed(text);
    law_trimmed_twice(text);
    let (lead, end) = choose|lead: int, end: int|
        {
            &&& 0 <= lead <= end <= text.len()
            &&& trimmed(text) == #[trigger] text.subrange(lead, end)
            &&& forall|i: int| 0 <= i < lead ==> is_white_space(#[trigger] text[i])
            &&& forall|i: int| end <= i < text.len() ==> is_white_space(#[trigger] text[i])
        };
    let sent = trimmed(text);
    assert forall|i: int, j: int|
        0 <= i && j == i + 1 && j < sent.len() && ends_sentence(
            #[trigger] sent[i],
        ) implies #[trigger] sent[j] != ' ' by {
        assert(sent[i] == text[lead + i] && sent[j] == text[lead + j]);
    }
}

} // verus!
