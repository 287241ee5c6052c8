use vstd::prelude::*;
use crate::console::{ConsoleQueue, first_pending, rest_pending};
use crate::input::{
    DeviceCall, HostEvent, MouseState, button_bits, button_mask, events_calls, fold_events, level,
    modifier_calls, scroll_total,
};
use crate::keys::LogicalKey;
use crate::pacer::{FramePacer, FRAME_QUANTUM_US};

verus! {

/// What the host reports for one tick.
pub struct TickInput {
    /// Host time, in microseconds.
    pub time: u64,
    /// The events since the last tick, in arrival order.
    pub events: Vec<HostEvent>,
    pub ctrl: bool,
    pub alt: bool,
    pub shift: bool,
    /// The latest pointer position, if the host reported one this tick.
    pub pointer: Option<(i32, i32)>,
    pub primary: bool,
    pub middle: bool,
    pub secondary: bool,
}

/// The pointer position after a tick: a new one replaces the old one, and an
/// absent one leaves it as it was.
pub open spec fn cursor_after(cursor: Option<(i32, i32)>, pointer: Option<(i32, i32)>) -> Option<
    (i32, i32),
> {
    match pointer {
        Some(p) => Some(p),
        None => cursor,
    }
}

/// The mouse state of a tick, given the pointer position known after it.
pub open spec fn mouse_of(cursor: Option<(i32, i32)>, input: TickInput) -> MouseState {
    let pos = match cursor {
        Some(p) => p,
        None => (0i32, 0i32),
    };
    let s = scroll_total(input.events@);
    MouseState {
        x: pos.0,
        y: pos.1,
        scroll_x: s.0 as i64,
        scroll_y: s.1 as i64,
        buttons: button_bits(input.primary, input.middle, input.secondary),
    }
}

pub open spec fn console_calls(b: Option<u8>) -> Seq<DeviceCall> {
    match b {
        Some(c) => seq![DeviceCall::Console(c)],
        None => Seq::empty(),
    }
}

/// The calls of one tick, in order: the redraw if one is due, the calls of
/// the events, the leveled modifiers, the mouse state, and at most one
/// console byte.
pub open spec fn tick_calls(
    redraw: bool,
    cursor: Option<(i32, i32)>,
    console: Option<u8>,
    input: TickInput,
) -> Seq<DeviceCall> {
    (if redraw {
        seq![DeviceCall::Redraw]
    } else {
        Seq::empty()
    }) + events_calls(input.events@, input.shift) + modifier_calls(input.ctrl, input.alt, input.shift)
        + seq![DeviceCall::Mouse(mouse_of(cursor, input))] + console_calls(console)
}

/// The adapter's state between ticks.
pub struct Stage {
    pub pacer: FramePacer,
    /// The last pointer position the host reported, if any.
    pub cursor: Option<(i32, i32)>,
    /// Console bytes waiting for the device.
    pub console: ConsoleQueue,
}

impl Stage {
    pub fn new() -> (r: Stage)
        ensures
            r.pacer.deadline == 0,
            r.pacer.quantum == FRAME_QUANTUM_US,
            r.cursor.is_none(),
            r.console@ == Seq::<u8>::empty(),
    {
        Stage { pacer: FramePacer::new(0, FRAME_QUANTUM_US), cursor: None, console: ConsoleQueue::new() }
    }

    /// Queues a byte read from the host's standard input.
    pub fn push_console(&mut self, b: u8)
        ensures
            final(self).console@ == old(self).console@.push(b),
            final(self).pacer == old(self).pacer,
            final(self).cursor == old(self).cursor,
    {
        self.console.push(b);
    }

    /// Runs one tick: folds the host's input into the calls that the device
    /// receives, in the order it must receive them.
    pub fn tick(&mut self, input: &TickInput) -> (calls: Vec<DeviceCall>)
        requires
            old(self).pacer.can_poll(input.time),
            input.events@.len() <= u32::MAX,
        ensures
            final(self).pacer.quantum == old(self).pacer.quantum,
            final(self).pacer.deadline == if input.time >= old(self).pacer.deadline {
                old(self).pacer.deadline + old(self).pacer.quantum
            } else {
                old(self).pacer.deadline as int
            },
            final(self).cursor == cursor_after(old(self).cursor, input.pointer),
            final(self).console@ == rest_pending(old(self).console@),
            calls@ == tick_calls(
                input.time >= old(self).pacer.deadline,
                final(self).cursor,
                first_pending(old(self).console@),
                *input,
            ),
    {
        let mut calls: Vec<DeviceCall> = Vec::new();
        let redraw = self.pacer.poll(input.time);
        if redraw {
            calls.push(DeviceCall::Redraw);
        }
        let (sx, sy) = fold_events(&mut calls, &input.events, input.shift);
        let ghost after_events = calls@;
        calls.push(level(LogicalKey::Ctrl, input.ctrl));
        calls.push(level(LogicalKey::Alt, input.alt));
        calls.push(level(LogicalKey::Shift, input.shift));
        match input.pointer {
            Some(p) => {
                self.cursor = Some(p);
            },
            None => {},
        }
        let pos = match self.cursor {
            Some(p) => p,
            None => (0i32, 0i32),
        };
        let m = MouseState {
            x: pos.0,
            y: pos.1,
            scroll_x: sx,
            scroll_y: sy,
            buttons: button_mask(input.primary, input.middle, input.secondary),
        };
        calls.push(DeviceCall::Mouse(m));
        let ghost after_mouse = calls@;
        match self.console.take() {
            Some(b) => {
                calls.push(DeviceCall::Console(b));
            },
            None => {},
        }
        proof {
            assert(after_events + modifier_calls(input.ctrl, input.alt, input.shift) + seq![
                DeviceCall::Mouse(m),
            ] =~= after_mouse);
            assert(calls@ =~= after_mouse + console_calls(first_pending(old(self).console@)));
            assert(calls@ =~= tick_calls(
                redraw,
                self.cursor,
                first_pending(old(self).console@),
                *input,
            ));
        }
        calls
    }
}

} // verus!
