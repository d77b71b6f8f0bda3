//! The frame clock: cuts the time that passes between frames into whole
//! ticks and carries the rest over to the next frame.

use vstd::prelude::*;

verus! {

/// How many nanoseconds make one tick: a tick is a millisecond.
pub const NANOS_PER_TICK: u64 = 1_000_000;

/// The time that has passed and has not been counted as a tick yet.
#[derive(Clone, Copy, Debug, PartialEq, Eq, Structural)]
pub struct FrameClock {
    /// Nanoseconds carried over from the frames so far, less than a tick.
    pub carry: u64,
}

/// The whole ticks in `nanos` nanoseconds.
pub open spec fn whole_ticks(nanos: int) -> int {
    nanos / (NANOS_PER_TICK as int)
}

/// What `nanos` nanoseconds leave over after their whole ticks.
pub open spec fn rest_of_ticks(nanos: int) -> int {
    nanos % (NANOS_PER_TICK as int)
}

impl FrameClock {
    /// The clocks that carry less than a tick.
    pub open spec fn wf(&self) -> bool {
        self.carry < NANOS_PER_TICK
    }

    /// Whether the clock carries less than a tick.
    pub fn is_valid(&self) -> (valid: bool)
        ensures
            valid == self.wf(),
    {
        self.carry < NANOS_PER_TICK
    }

    /// A clock that carries nothing.
    pub fn new() -> (clock: FrameClock)
        ensures
            clock.carry == 0,
            clock.wf(),
    {
        FrameClock { carry: 0 }
    }

    /// Counts a frame of `delta_nanos` nanoseconds. Returns the whole ticks
    /// in the time carried so far plus the time of this frame, and carries
    /// the rest. A frame of more ticks than a `u32` holds counts as
    /// `u32::MAX` ticks and leaves nothing to carry.
    pub fn ticks(&mut self, delta_nanos: u64) -> (ticks: u32)
        requires
            old(self).wf(),
        ensures
            final(self).wf(),
            whole_ticks(old(self).carry + delta_nanos) <= u32::MAX ==> {
                &&& ticks == whole_ticks(old(self).carry + delta_nanos)
                &&& final(self).carry == rest_of_ticks(old(self).carry + delta_nanos)
                &&& ticks * NANOS_PER_TICK + final(self).carry == old(self).carry + delta_nanos
            },
            whole_ticks(old(self).carry + delta_nanos) > u32::MAX ==> {
                &&& ticks == u32::MAX
                &&& final(self).carry == 0
            },
    {
        let whole: u64 = delta_nanos / NANOS_PER_TICK;
        let rest: u64 = self.carry + delta_nanos % NANOS_PER_TICK;
        let counted: u64 = whole + rest / NANOS_PER_TICK;
        if counted > 0xFFFF_FFFF {
            self.carry = 0;
            u32::MAX
        } else {
            self.carry = rest % NANOS_PER_TICK;
            counted as u32
        }
    }
}

} // verus!
