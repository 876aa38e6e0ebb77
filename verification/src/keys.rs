//! Hardware event model: raw events as the kernel interface delivers them,
//! and their fallible normalization into key events.

use vstd::prelude::*;

verus! {

/// The class of a raw hardware event. Key events carry remappable input;
/// sync markers, misc markers and relative motion are passed through
/// untouched; anything else is grouped under `Other`.
#[derive(Clone, Copy, PartialEq, Eq, Structural, Debug)]
pub enum EventKind {
    Syn,
    Key,
    Rel,
    Msc,
    Other,
}

/// An unnormalized hardware event (type, code, value) as delivered by the
/// kernel event interface.
#[derive(Clone, Copy, PartialEq, Eq, Structural, Debug)]
pub struct RawEvent {
    pub kind: EventKind,
    pub code: u16,
    pub value: i32,
}

/// A normalized key event: the fallible projection of a `RawEvent`
/// restricted to key-class events.
#[derive(Clone, Copy, PartialEq, Eq, Structural, Debug)]
pub struct KeyEvent {
    pub code: u16,
    pub value: i32,
}

/// Whether a raw event converts to a key event at all.
pub open spec fn is_key_raw(raw: RawEvent) -> bool {
    raw.kind == EventKind::Key
}

/// The key event a key-class raw event converts to.
pub open spec fn spec_key_of(raw: RawEvent) -> KeyEvent {
    KeyEvent { code: raw.code, value: raw.value }
}

impl KeyEvent {
    /// Normalizing conversion. Succeeds exactly on key-class events and
    /// preserves code and value; fails on everything else.
    pub fn try_from_raw(raw: &RawEvent) -> (r: Option<KeyEvent>)
        ensures
            is_key_raw(*raw) ==> r == Some(spec_key_of(*raw)),
            !is_key_raw(*raw) ==> r is None,
    {
        match raw.kind {
            EventKind::Key => Some(KeyEvent { code: raw.code, value: raw.value }),
            _ => None,
        }
    }
}

/// Where one raw event goes: key events enter the dispatch chain, all other
/// events are forwarded to the output sink byte-for-byte.
#[derive(Clone, Copy, PartialEq, Eq, Structural, Debug)]
pub enum Routed {
    Dispatch(KeyEvent),
    PassThrough(RawEvent),
}

/// Routing decision for one raw event read from a device.
///
/// A raw event that fails key conversion is passed through exactly as it
/// came in; a key event is handed to the dispatch chain in normalized form.
pub fn route_event(raw: &RawEvent) -> (r: Routed)
    ensures
        is_key_raw(*raw) ==> r == Routed::Dispatch(spec_key_of(*raw)),
        !is_key_raw(*raw) ==> r == Routed::PassThrough(*raw),
{
    match KeyEvent::try_from_raw(raw) {
        Some(key_event) => Routed::Dispatch(key_event),
        None => Routed::PassThrough(*raw),
    }
}

} // verus!
