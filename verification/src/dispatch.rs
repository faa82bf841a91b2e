//! The event dispatch decision: which raw input events count, how each one
//! moves the pending identifier buffer, and when a completed identifier is
//! handed to the playback controller.
//!
//! The dispatch loop itself lives in the surrounding binary, which blocks on
//! the input reader and feeds each fetched event through `handle_event`.

use vstd::prelude::*;
use crate::assembler::{push_spec, Assembler};
use crate::keys;

verus! {

/// One raw event from the input reader: its type, its key code, and its
/// value. Only key events with a key-down value count; releases, repeats and
/// non-key events are ignored.
#[derive(Debug, Clone, Copy, PartialEq, Eq, Structural)]
pub struct InputEvent {
    /// The event type; key events carry `keys::EV_KEY`.
    pub event_type: u16,
    /// The key code.
    pub code: u16,
    /// The event value; a key-down transition carries
    /// `keys::KEY_PRESS_VALUE`.
    pub value: i32,
}

/// Whether the event is a key-down transition of any key.
pub open spec fn is_key_press(ev: InputEvent) -> bool {
    ev.event_type == keys::EV_KEY && ev.value == keys::KEY_PRESS_VALUE
}

/// Whether the event is a key-down transition of a digit key.
pub open spec fn is_digit_press(ev: InputEvent) -> bool {
    is_key_press(ev) && keys::spec_digit_of(ev.code) is Some
}

/// Whether the event is a key-down transition of the terminator key.
pub open spec fn is_terminator_press(ev: InputEvent) -> bool {
    is_key_press(ev) && ev.code == keys::KEY_ENTER
}

/// What one raw event does: the pending buffer afterwards, and the completed
/// identifier the event delivers, if it is the terminator.
pub open spec fn dispatch_spec(buf: Seq<char>, ev: InputEvent) -> (Seq<char>, Option<Seq<char>>) {
    if !is_key_press(ev) {
        (buf, None)
    } else if ev.code == keys::KEY_ENTER {
        (Seq::empty(), Some(buf))
    } else {
        match keys::spec_digit_of(ev.code) {
            Some(c) => (push_spec(buf, c), None),
            None => (buf, None),
        }
    }
}

/// Routes one raw event. A digit press goes into the assembler; a press of
/// the terminator key takes the completed identifier out and resets the
/// buffer; everything else is ignored.
pub fn handle_event(assembler: &mut Assembler, ev: InputEvent) -> (r: Option<Vec<char>>)
    ensures
        final(assembler)@ == dispatch_spec(old(assembler)@, ev).0,
        match r {
            Some(id) => dispatch_spec(old(assembler)@, ev).1 == Some(id@),
            None => dispatch_spec(old(assembler)@, ev).1 is None,
        },
{
    if ev.event_type != keys::EV_KEY || ev.value != keys::KEY_PRESS_VALUE {
        return None;
    }
    if ev.code == keys::KEY_ENTER {
        return Some(assembler.take_and_reset());
    }
    match keys::get_char(ev.code) {
        Some(c) => {
            assembler.push(c);
            None
        },
        None => None,
    }
}

/// The pending buffer after a run of raw events, none of which is a
/// terminator press.
pub open spec fn run_events(buf: Seq<char>, evs: Seq<InputEvent>) -> Seq<char>
    decreases evs.len(),
{
    if evs.len() == 0 {
        buf
    } else {
        run_events(dispatch_spec(buf, evs[0]).0, evs.drop_first())
    }
}

/// The digit characters a run of digit presses types, in order.
pub open spec fn digits_of(evs: Seq<InputEvent>) -> Seq<char> {
    evs.map(|i: int, ev: InputEvent| keys::spec_digit_of(ev.code)->0)
}

/// A digit press appends exactly its digit, whatever the buffer held.
proof fn lemma_run_events_appends(buf: Seq<char>, evs: Seq<InputEvent>)
    requires
        forall|i: int| 0 <= i < evs.len() ==> is_digit_press(#[trigger] evs[i]),
    ensures
        run_events(buf, evs) == buf + digits_of(evs),
    decreases evs.len(),
{
    if evs.len() == 0 {
        assert(digits_of(evs) =~= Seq::<char>::empty());
        assert(run_events(buf, evs) =~= buf + digits_of(evs));
    } else {
        let ev = evs[0];
        let rest = evs.drop_first();
        let c = keys::spec_digit_of(ev.code)->0;
        assert(dispatch_spec(buf, ev).0 == buf.push(c));
        assert(forall|i: int|
            0 <= i < rest.len() ==> is_digit_press(#[trigger] rest[i]) && rest[i] == evs[i + 1]);
        lemma_run_events_appends(buf.push(c), rest);
        assert(digits_of(rest) =~= digits_of(evs).drop_first());
        assert(buf.push(c) + digits_of(rest) =~= buf + digits_of(evs));
    }
}

/// Law: for a scan typed as digit presses followed by the terminator press,
/// the identifier delivered equals the exact concatenation of the digits
/// pressed, nothing dropped and nothing reordered, and the pending buffer is
/// empty immediately afterwards.
pub proof fn lemma_scan_faithful(evs: Seq<InputEvent>, term: InputEvent)
    requires
        forall|i: int| 0 <= i < evs.len() ==> is_digit_press(#[trigger] evs[i]),
        is_terminator_press(term),
    ensures
        ({
            let buf = run_events(Seq::empty(), evs);
            let (after, delivered) = dispatch_spec(buf, term);
            &&& delivered == Some(digits_of(evs))
            &&& after == Seq::<char>::empty()
        }),
{
    lemma_run_events_appends(Seq::empty(), evs);
    assert(Seq::<char>::empty() + digits_of(evs) =~= digits_of(evs));
}

} // verus!
