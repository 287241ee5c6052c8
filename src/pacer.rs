use vstd::prelude::*;

verus! {

/// The interval between two redraws, in microseconds of host time.
pub const FRAME_QUANTUM_US: u64 = 15000;

/// Limits redraws to one per quantum of host time.
///
/// The deadline moves by exactly one quantum per redraw: after a stall the
/// pacer catches up one frame per poll instead of skipping ahead.
#[derive(Clone, Copy, Debug, PartialEq, Eq, Structural)]
pub struct FramePacer {
    /// Host time (microseconds) at or after which the next redraw is due.
    pub deadline: u64,
    /// Amount by which the deadline moves on each redraw.
    pub quantum: u64,
}

impl FramePacer {
    pub fn new(deadline: u64, quantum: u64) -> (r: FramePacer)
        ensures
            r.deadline == deadline,
            r.quantum == quantum,
    {
        FramePacer { deadline, quantum }
    }

    /// Whether a redraw at host time `now` would move the deadline past the
    /// largest representable time.
    pub open spec fn can_poll(&self, now: u64) -> bool {
        now >= self.deadline ==> self.deadline + self.quantum <= u64::MAX
    }

    /// Checks whether a redraw is due at host time `now`; if it is, the
    /// deadline moves forward by one quantum.
    pub fn poll(&mut self, now: u64) -> (redraw: bool)
        requires
            old(self).can_poll(now),
        ensures
            redraw == (now >= old(self).deadline),
            final(self).quantum == old(self).quantum,
            final(self).deadline == if redraw {
                old(self).deadline + old(self).quantum
            } else {
                old(self).deadline as int
            },
    {
        if now >= self.deadline {
            self.deadline = self.deadline + self.quantum;
            true
        } else {
            false
        }
    }
}

} // verus!
