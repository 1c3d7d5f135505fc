//! The per-frame clock and the animated uniform offset.
//!
//! Each rendered frame advances a clock `t` by a fixed step of 0.002 units.
//! The uniform offset fed to the shaders is derived from the clock in one of
//! two ways: the raw clock value, or half the sine of the clock.

use vstd::prelude::*;

use crate::fixed::Fx;
use crate::fixed::SCALE;

verus! {

/// How far the clock advances per rendered frame: 0.002 units.
pub const TIME_STEP_MICROS: i64 = 2000;

/// The clock state of the frame loop: how many frames have been rendered and
/// the time value they have accumulated.
#[derive(Clone, Copy, Debug, PartialEq, Eq, Structural)]
pub struct FrameState {
    /// Frames rendered so far.
    pub frames: u32,
    /// The accumulated clock, `frames` steps of 0.002 units.
    pub t: Fx,
}

impl FrameState {
    /// The clock is well formed when it reads exactly one step per frame.
    pub open spec fn wf(self) -> bool {
        self.t.micros == self.frames * TIME_STEP_MICROS
    }

    /// The state before the first frame.
    pub open spec fn spec_new() -> FrameState {
        FrameState { frames: 0, t: Fx { micros: 0 } }
    }

    /// The state one frame later.
    pub open spec fn spec_advance(self) -> FrameState {
        FrameState {
            frames: (self.frames + 1) as u32,
            t: Fx { micros: (self.t.micros + TIME_STEP_MICROS) as i64 },
        }
    }

    /// The state `n` frames later.
    pub open spec fn spec_advanced(self, n: nat) -> FrameState
        decreases n,
    {
        if n == 0 {
            self
        } else {
            self.spec_advanced((n - 1) as nat).spec_advance()
        }
    }

    /// Starts the clock at zero.
    pub fn new() -> (s: FrameState)
        ensures
            s == FrameState::spec_new(),
            s.wf(),
    {
        FrameState { frames: 0, t: Fx::zero() }
    }

    /// Advances the clock by one frame.
    pub fn advance(&mut self)
        requires
            old(self).wf(),
            old(self).frames < u32::MAX,
        ensures
            *final(self) == old(self).spec_advance(),
            final(self).wf(),
            final(self).frames == old(self).frames + 1,
            final(self).t.micros == old(self).t.micros + TIME_STEP_MICROS,
    {
        self.frames = self.frames + 1;
        self.t = Fx::from_micros(self.t.micros + TIME_STEP_MICROS);
    }

    /// The uniform offset in the variant that animates the raw clock value.
    pub fn x_offset_linear(&self) -> (r: Fx)
        ensures
            r == self.t,
    {
        self.t
    }
}

/// Law: the clock advances linearly. After `n` frames from the start, the
/// clock reads exactly `n` steps of 0.002 units, and counts `n` frames.
pub proof fn lemma_time_linear(n: nat)
    requires
        n <= u32::MAX,
    ensures
        FrameState::spec_new().spec_advanced(n).frames == n,
        FrameState::spec_new().spec_advanced(n).t.micros == n * TIME_STEP_MICROS,
    decreases n,
{
    if n > 0 {
        lemma_time_linear((n - 1) as nat);
    }
}

/// Truncating halving: rounds toward zero, as the fixed-point scaling does.
pub open spec fn half_toward_zero(m: int) -> int {
    if m >= 0 {
        m / 2
    } else {
        -((-m) / 2)
    }
}

/// The uniform offset in the variant that animates half the sine of the
/// clock: `sin_t` is `sin(t)` in fixed point, and the result is `sin(t) * 0.5`,
/// which lies in `[-0.5, 0.5]` whatever the clock reads.
pub fn sine_offset(sin_t: Fx) -> (r: Fx)
    requires
        -SCALE <= sin_t.micros <= SCALE,
    ensures
        r.micros == half_toward_zero(sin_t.micros as int),
        -SCALE / 2 <= r.micros <= SCALE / 2,
{
    if sin_t.micros >= 0 {
        Fx::from_micros(sin_t.micros / 2)
    } else {
        Fx::from_micros(-((-sin_t.micros) / 2))
    }
}

} // verus!
