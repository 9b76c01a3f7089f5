//! Input events as the kernel reports them.

use crate::keys::Key;
use vstd::prelude::*;

verus! {

/// The type of the events that report a key.
pub const EV_KEY: u16 = 1;

/// What an event on a key reports when the key goes up.
pub const RELEASED: i32 = 0;

/// What an event on a key reports when the key goes down.
pub const PRESSED: i32 = 1;

/// One event of an input device, as the fields of the kernel's `input_event`.
#[derive(Clone, Copy, Debug, PartialEq, Eq, Structural)]
pub struct RawEvent {
    pub event_type: u16,
    pub code: u16,
    pub value: i32,
}

/// The key that an event is about. An event of another type is about none.
pub open spec fn event_key(event: RawEvent) -> Option<Key> {
    if event.event_type == EV_KEY {
        Some(Key { code: event.code })
    } else {
        None
    }
}

/// An event is about a key exactly if its type is 1, and then about the one that its code names,
/// whatever its value.
pub proof fn law_event_key(event: RawEvent)
    ensures
        event_key(event) is Some <==> event.event_type == 1,
        event_key(event) matches Some(key) ==> key.code == event.code,
        forall|value: i32| #[trigger]
            event_key(RawEvent { value, ..event }) == event_key(event),
{
}

/// Asks `evdev::InputEvent::kind` what the event with these fields is about, and hands on the
/// code of the key where it is about a key. Taken on trust: it is about a key exactly if its
/// type is EV_KEY, whatever its value, and the key's code is then the event's own.
#[verifier::external_body]
fn evdev_key_code(event_type: u16, code: u16, value: i32) -> (key: Option<u16>)
    ensures
        key == (if event_type == EV_KEY {
            Some(code)
        } else {
            None
        }),
{
    match evdev::InputEvent::new(evdev::EventType(event_type), code, value).kind() {
        evdev::InputEventKind::Key(key) => Some(key.code()),
        _ => None,
    }
}

/// The key that an event is about, if it is about a key.
pub fn key_of(event: RawEvent) -> (key: Option<Key>)
    ensures
        key == event_key(event),
{
    match evdev_key_code(event.event_type, event.code, event.value) {
        Some(code) => Some(Key::new(code)),
        None => None,
    }
}

} // verus!
