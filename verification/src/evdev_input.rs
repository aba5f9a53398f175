//! Input events and key capabilities as the evdev library gives them.

use vstd::prelude::*;

verus! {

pub const REL_WHEEL: u16 = 8;

pub const BTN_SIDE: u16 = 0x113;

pub const BTN_EXTRA: u16 = 0x114;

/// The kinds of input event that the mouse listener tells apart, with the key
/// or axis.
#[derive(Clone, Copy, Debug, PartialEq, Eq, Structural)]
pub enum EventKind {
    Key(u16),
    RelAxis(u16),
    Other,
}

/// The kind of a raw event: type 1 is a key event and type 2 a movement along
/// a relative axis, with the code as the key or axis.
pub open spec fn kind_of(event_type: u16, code: u16) -> EventKind {
    if event_type == 1 {
        EventKind::Key(code)
    } else if event_type == 2 {
        EventKind::RelAxis(code)
    } else {
        EventKind::Other
    }
}

/// Calls `evdev::InputEvent::kind` on the event with the given type, code and
/// value. It reads the type: `EV_KEY` gives a key and `EV_REL` a relative
/// axis, each with the code unchanged; every other type gives a kind that is
/// neither.
#[verifier::external_body]
pub(crate) fn event_kind(event_type: u16, code: u16, value: i32) -> (kind: EventKind)
    ensures
        kind == kind_of(event_type, code),
{
    match evdev::InputEvent::new(evdev::EventType(event_type), code, value).kind() {
        evdev::InputEventKind::Key(key) => EventKind::Key(key.code()),
        evdev::InputEventKind::RelAxis(axis) => EventKind::RelAxis(axis.0),
        _ => EventKind::Other,
    }
}

/// A set of keys of evdev.
#[verifier::external_type_specification]
#[verifier::external_body]
#[verifier::reject_recursive_types(T)]
pub struct ExAttributeSetRef<T>(evdev::AttributeSetRef<T>);

/// A key of evdev.
#[verifier::external_type_specification]
#[verifier::external_body]
pub struct ExKey(evdev::Key);

/// The codes of the keys in a set.
pub uninterp spec fn key_codes(keys: &evdev::AttributeSetRef<evdev::Key>) -> Set<u16>;

/// Calls `evdev::AttributeSetRef::contains` with the key of this code. It
/// looks up the bit of the key and is false for a key beyond the set.
#[verifier::external_body]
pub(crate) fn contains_key_code(keys: &evdev::AttributeSetRef<evdev::Key>, code: u16) -> (found: bool)
    ensures
        found == key_codes(keys).contains(code),
{
    keys.contains(evdev::Key::new(code))
}

/// The device has one of the side buttons of a mouse. `keys` are its keys,
/// `None` for a device without any.
pub fn has_side_buttons(keys: Option<&evdev::AttributeSetRef<evdev::Key>>) -> (r: bool)
    ensures
        r == match keys {
            Some(keys) => key_codes(keys).contains(BTN_SIDE) || key_codes(keys).contains(BTN_EXTRA),
            None => false,
        },
{
    match keys {
        Some(keys) => contains_key_code(keys, BTN_SIDE) || contains_key_code(keys, BTN_EXTRA),
        None => false,
    }
}

/// Events of type 1 are those of keys and events of type 2 those of relative
/// axes, for every code; no other type is either.
pub proof fn law_kinds_by_type(event_type: u16, code: u16)
    ensures
        kind_of(1, code) == EventKind::Key(code),
        kind_of(2, code) == EventKind::RelAxis(code),
        event_type != 1 && event_type != 2 ==> kind_of(event_type, code) == EventKind::Other,
{
}

} // verus!
