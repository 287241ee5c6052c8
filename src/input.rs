use vstd::prelude::*;
use crate::keys::{LogicalKey, PhysicalKey, key_table, raw_filter, decode_key, raw_text_chars};

verus! {

/// One input event of the host toolkit, as far as the device cares.
pub enum HostEvent {
    /// Decoded text, as UTF-8 bytes.
    Text(Vec<u8>),
    /// A physical key went down or up.
    Key { key: PhysicalKey, pressed: bool },
    /// A scroll, in the host's convention (positive `dy` scrolls up).
    Scroll { dx: i32, dy: i32 },
}

/// The pointer state handed to the device once per tick.
#[derive(Clone, Copy, Debug, PartialEq, Eq, Structural)]
pub struct MouseState {
    pub x: i32,
    pub y: i32,
    /// Scroll accumulated over the tick, in the device's convention.
    pub scroll_x: i64,
    pub scroll_y: i64,
    /// Bit 0: primary button, bit 1: middle, bit 2: secondary.
    pub buttons: u8,
}

/// A call into the device's input protocol.
#[derive(Clone, Copy, Debug, PartialEq, Eq, Structural)]
pub enum DeviceCall {
    Redraw,
    Char(u8),
    Pressed(LogicalKey),
    Released(LogicalKey),
    Mouse(MouseState),
    Console(u8),
}

/// The button bitmask: bit `i` is set iff button `i` (primary, middle,
/// secondary) is down.
pub open spec fn button_bits(primary: bool, middle: bool, secondary: bool) -> u8 {
    ((if primary { 1int } else { 0int }) + (if middle { 2int } else { 0int }) + (if secondary {
        4int
    } else {
        0int
    })) as u8
}

/// Builds the button bitmask from the live state of the three buttons.
pub fn button_mask(primary: bool, middle: bool, secondary: bool) -> (r: u8)
    ensures
        r == button_bits(primary, middle, secondary),
        r & 1 == 1 <==> primary,
        r & 2 == 2 <==> middle,
        r & 4 == 4 <==> secondary,
        r < 8,
{
    let mut bits: u8 = 0;
    if primary {
        bits = bits + 1;
    }
    if middle {
        bits = bits + 2;
    }
    if secondary {
        bits = bits + 4;
    }
    assert(bits < 8 ==> ((bits & 1 == 1) == (bits % 2 == 1) && (bits & 2 == 2) == ((bits / 2)
        % 2 == 1) && (bits & 4 == 4) == (bits / 4 == 1))) by (bit_vector);
    bits
}

/// The device-side scroll of one event: x as the host gives it, y inverted.
pub open spec fn scroll_delta(e: HostEvent) -> (int, int) {
    match e {
        HostEvent::Scroll { dx, dy } => (dx as int, -(dy as int)),
        _ => (0, 0),
    }
}

/// The scroll accumulated over a sequence of events, per axis.
pub open spec fn scroll_total(es: Seq<HostEvent>) -> (int, int)
    decreases es.len(),
{
    if es.len() == 0 {
        (0, 0)
    } else {
        let prev = scroll_total(es.drop_last());
        let d = scroll_delta(es.last());
        (prev.0 + d.0, prev.1 + d.1)
    }
}

/// Scroll is exactly additive per axis: the scroll of two runs of events is
/// the sum of the scrolls of each.
pub proof fn lemma_scroll_additive(a: Seq<HostEvent>, b: Seq<HostEvent>)
    ensures
        scroll_total(a + b).0 == scroll_total(a).0 + scroll_total(b).0,
        scroll_total(a + b).1 == scroll_total(a).1 + scroll_total(b).1,
    decreases b.len(),
{
    if b.len() > 0 {
        lemma_scroll_additive(a, b.drop_last());
        assert((a + b).drop_last() =~= a + b.drop_last());
        assert((a + b).last() == b.last());
    } else {
        assert(a + b =~= a);
    }
}

pub open spec fn char_calls(s: Seq<u8>) -> Seq<DeviceCall> {
    s.map_values(|c: u8| DeviceCall::Char(c))
}

pub open spec fn key_call(k: LogicalKey, pressed: bool) -> DeviceCall {
    if pressed {
        DeviceCall::Pressed(k)
    } else {
        DeviceCall::Released(k)
    }
}

/// The calls that one event gives, with Shift held or not.
pub open spec fn event_calls(e: HostEvent, shift: bool) -> Seq<DeviceCall> {
    match e {
        HostEvent::Text(t) => char_calls(raw_filter(t@)),
        HostEvent::Key { key, pressed } => match key_table(key, shift) {
            Some(k) => seq![key_call(k, pressed)],
            None => Seq::empty(),
        },
        HostEvent::Scroll { .. } => Seq::empty(),
    }
}

/// The calls that a sequence of events gives, in the order of the events.
pub open spec fn events_calls(es: Seq<HostEvent>, shift: bool) -> Seq<DeviceCall>
    decreases es.len(),
{
    if es.len() == 0 {
        Seq::empty()
    } else {
        events_calls(es.drop_last(), shift) + event_calls(es.last(), shift)
    }
}

/// The leveled modifier calls: each of Ctrl, Alt and Shift is pressed or
/// released according to its current state.
pub open spec fn modifier_calls(ctrl: bool, alt: bool, shift: bool) -> Seq<DeviceCall> {
    seq![
        key_call(LogicalKey::Ctrl, ctrl),
        key_call(LogicalKey::Alt, alt),
        key_call(LogicalKey::Shift, shift),
    ]
}

/// Forwards a press or a release of `k`.
pub fn level(k: LogicalKey, held: bool) -> (r: DeviceCall)
    ensures
        r == key_call(k, held),
{
    if held {
        DeviceCall::Pressed(k)
    } else {
        DeviceCall::Released(k)
    }
}

/// Appends the raw-text calls of a decoded text.
pub fn push_text_calls(calls: &mut Vec<DeviceCall>, text: &Vec<u8>)
    ensures
        final(calls)@ == old(calls)@ + char_calls(raw_filter(text@)),
{
    let raw = raw_text_chars(text.as_slice());
    let mut j: usize = 0;
    while j < raw.len()
        invariant
            j <= raw@.len(),
            raw@ == raw_filter(text@),
            calls@ == old(calls)@ + char_calls(raw@.take(j as int)),
        decreases raw@.len() - j,
    {
        calls.push(DeviceCall::Char(raw[j]));
        proof {
            assert(char_calls(raw@.take(j + 1)) =~= char_calls(raw@.take(j as int)).push(
                DeviceCall::Char(raw@[j as int]),
            ));
        }
        j = j + 1;
    }
    proof {
        assert(raw@.take(raw@.len() as int) =~= raw@);
    }
}

/// Appends the calls of a key event, if the key means anything to the device.
pub fn push_key_call(calls: &mut Vec<DeviceCall>, key: PhysicalKey, pressed: bool, shift: bool)
    ensures
        final(calls)@ == old(calls)@ + match key_table(key, shift) {
            Some(k) => seq![key_call(k, pressed)],
            None => Seq::empty(),
        },
{
    match decode_key(key, shift) {
        Some(k) => {
            calls.push(level(k, pressed));
            assert(calls@ =~= old(calls)@ + seq![key_call(k, pressed)]);
        },
        None => {
            assert(calls@ =~= old(calls)@ + Seq::<DeviceCall>::empty());
        },
    }
}

/// Appends the calls of a tick's events, in arrival order, and returns the
/// scroll they add up to in the device's convention.
pub fn fold_events(calls: &mut Vec<DeviceCall>, events: &Vec<HostEvent>, shift: bool) -> (r: (
    i64,
    i64,
))
    requires
        events@.len() <= u32::MAX,
    ensures
        final(calls)@ == old(calls)@ + events_calls(events@, shift),
        r.0 == scroll_total(events@).0,
        r.1 == scroll_total(events@).1,
{
    let mut sx: i64 = 0;
    let mut sy: i64 = 0;
    let mut i: usize = 0;
    while i < events.len()
        invariant
            i <= events@.len(),
            events@.len() <= u32::MAX,
            calls@ == old(calls)@ + events_calls(events@.take(i as int), shift),
            sx == scroll_total(events@.take(i as int)).0,
            sy == scroll_total(events@.take(i as int)).1,
            -(i as int) * 0x8000_0000 <= sx <= (i as int) * 0x8000_0000,
            -(i as int) * 0x8000_0000 <= sy <= (i as int) * 0x8000_0000,
        decreases events@.len() - i,
    {
        let ghost before = calls@;
        proof {
            assert(events@.take(i + 1).drop_last() =~= events@.take(i as int));
        }
        match &events[i] {
            HostEvent::Text(t) => {
                push_text_calls(calls, t);
            },
            HostEvent::Key { key, pressed } => {
                push_key_call(calls, *key, *pressed, shift);
            },
            HostEvent::Scroll { dx, dy } => {
                sx = sx + *dx as i64;
                sy = sy - *dy as i64;
                assert(calls@ =~= before + Seq::<DeviceCall>::empty());
            },
        }
        proof {
            assert(calls@ == before + event_calls(events@[i as int], shift));
            assert(old(calls)@ + events_calls(events@.take(i + 1), shift) =~= old(calls)@
                + events_calls(events@.take(i as int), shift) + event_calls(events@[i as int], shift));
        }
        i = i + 1;
    }
    proof {
        assert(events@.take(events@.len() as int) =~= events@);
    }
    (sx, sy)
}

} // verus!
