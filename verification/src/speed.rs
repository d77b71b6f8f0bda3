//! The difficulty model: the scroll speed grows with the time played, up to
//! a ceiling.

use vstd::prelude::*;
use crate::scene::{SceneSettings, MAX_SPEED};

verus! {

/// How the scroll speed grows while a run is played.
#[derive(Clone, Copy, Debug, PartialEq, Eq, Structural)]
pub struct SpeedRamp {
    /// The speed at which a run starts.
    pub base_speed: i64,
    /// The speed that is never exceeded.
    pub max_speed: i64,
    /// By how much the speed grows in one tick.
    pub ramp_rate: i64,
    /// Whether a run is played at the highest speed from its first frame.
    pub hard_mode: bool,
}

impl SpeedRamp {
    /// The ramps that lead from a base speed up to a ceiling within the
    /// speeds a course accepts.
    pub open spec fn wf(&self) -> bool {
        &&& 0 <= self.base_speed <= self.max_speed <= MAX_SPEED
        &&& 0 <= self.ramp_rate <= MAX_SPEED
    }

    /// Whether the ramp is well formed.
    pub fn is_valid(&self) -> (valid: bool)
        ensures
            valid == self.wf(),
    {
        0 <= self.base_speed && self.base_speed <= self.max_speed && self.max_speed <= MAX_SPEED
            && 0 <= self.ramp_rate && self.ramp_rate <= MAX_SPEED
    }

    /// The speed of the first frame of a run.
    pub fn starting_speed(&self) -> (speed: i64)
        ensures
            speed == speed_at(*self, 0),
    {
        if self.hard_mode {
            self.max_speed
        } else {
            if self.base_speed <= self.max_speed {
                self.base_speed
            } else {
                self.max_speed
            }
        }
    }
}

/// The smaller of two integers.
pub open spec fn lesser(a: int, b: int) -> int {
    if a <= b {
        a
    } else {
        b
    }
}

/// The scroll speed after `elapsed` ticks of play: the base speed plus the
/// rate for each tick, capped at the ceiling; in hard mode the ceiling from
/// the start.
pub open spec fn speed_at(ramp: SpeedRamp, elapsed: nat) -> int {
    if ramp.hard_mode {
        ramp.max_speed as int
    } else {
        lesser(ramp.max_speed as int, ramp.base_speed + ramp.ramp_rate * elapsed)
    }
}

/// The scroll speed one frame of `delta` ticks after it was `speed`: below
/// the ceiling the speed grows by the rate for each tick and is capped; at or
/// above the ceiling it stays. Hard mode sets the ceiling.
pub open spec fn ramped_speed(ramp: SpeedRamp, speed: int, delta: nat) -> int {
    if ramp.hard_mode {
        ramp.max_speed as int
    } else if speed < ramp.max_speed {
        lesser(ramp.max_speed as int, speed + ramp.ramp_rate * delta)
    } else {
        speed
    }
}

/// The scroll speed after frames of the given lengths, one after another,
/// starting from `speed`.
pub open spec fn speed_after_frames(ramp: SpeedRamp, speed: int, deltas: Seq<u32>) -> int
    decreases deltas.len(),
{
    if deltas.len() == 0 {
        speed
    } else {
        ramped_speed(
            ramp,
            speed_after_frames(ramp, speed, deltas.drop_last()),
            deltas.last() as nat,
        )
    }
}

/// The sum of the frame lengths.
pub open spec fn total_ticks(deltas: Seq<u32>) -> nat
    decreases deltas.len(),
{
    if deltas.len() == 0 {
        0
    } else {
        total_ticks(deltas.drop_last()) + deltas.last() as nat
    }
}

/// Raises the scroll speed for one frame of `delta` ticks of play.
pub fn ramp_up_speed(settings: &mut SceneSettings, ramp: &SpeedRamp, delta: u32)
    requires
        old(settings).wf(),
        ramp.wf(),
    ensures
        *final(settings) == (SceneSettings {
            pipe_speed: ramped_speed(*ramp, old(settings).pipe_speed as int, delta as nat) as i64,
            ..*old(settings)
        }),
        final(settings).wf(),
        final(settings).pipe_speed == ramped_speed(
            *ramp,
            old(settings).pipe_speed as int,
            delta as nat,
        ),
{
    if ramp.hard_mode {
        settings.pipe_speed = ramp.max_speed;
    } else if settings.pipe_speed < ramp.max_speed {
        assert(0 <= ramp.ramp_rate * delta <= MAX_SPEED * 0x1_0000_0000) by (nonlinear_arith)
            requires
                0 <= ramp.ramp_rate <= MAX_SPEED,
                0 <= delta < 0x1_0000_0000,
        ;
        let raised: i64 = settings.pipe_speed + ramp.ramp_rate * (delta as i64);
        settings.pipe_speed = if raised < ramp.max_speed {
            raised
        } else {
            ramp.max_speed
        };
    }
}

/// One frame of ramping takes the speed of `elapsed` ticks of play to the
/// speed of `elapsed + delta` ticks.
pub proof fn lemma_ramp_step(ramp: SpeedRamp, elapsed: nat, delta: nat)
    requires
        ramp.wf(),
    ensures
        ramped_speed(ramp, speed_at(ramp, elapsed), delta) == speed_at(ramp, elapsed + delta),
{
    assert(ramp.ramp_rate * (elapsed + delta) == ramp.ramp_rate * elapsed + ramp.ramp_rate
        * delta) by (nonlinear_arith);
    assert(ramp.ramp_rate * delta >= 0) by (nonlinear_arith)
        requires
            ramp.ramp_rate >= 0,
            delta >= 0,
    ;
}

/// The speed of a run depends on the time played alone, however that time
/// is cut into frames: after frames that add up to `t` ticks, a run that
/// started at its starting speed scrolls at
/// `min(max_speed, base_speed + ramp_rate * t)`, and in hard mode at
/// `max_speed`.
pub proof fn lemma_speed_closed_form(ramp: SpeedRamp, deltas: Seq<u32>)
    requires
        ramp.wf(),
    ensures
        speed_after_frames(ramp, speed_at(ramp, 0), deltas) == speed_at(ramp, total_ticks(deltas)),
        ramp.base_speed <= speed_at(ramp, total_ticks(deltas)) <= ramp.max_speed,
    decreases deltas.len(),
{
    if deltas.len() == 0 {
        assert(ramp.ramp_rate * 0 == 0) by (nonlinear_arith);
    } else {
        lemma_speed_closed_form(ramp, deltas.drop_last());
        lemma_ramp_step(ramp, total_ticks(deltas.drop_last()), deltas.last() as nat);
        assert(ramp.ramp_rate * total_ticks(deltas) >= 0) by (nonlinear_arith)
            requires
                ramp.ramp_rate >= 0,
                total_ticks(deltas) >= 0,
        ;
    }
}

} // verus!
