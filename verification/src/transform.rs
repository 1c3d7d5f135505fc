//! The per-frame transform matrix.
//!
//! The demo rotates the triangle by feeding the vertex shader a 4x4 matrix
//! rebuilt every frame from the clock. Building the matrix needs the cosine
//! and sine of the rotation angles; those two values are computed by the
//! unverified renderer and handed in here as fixed-point scalars, so the
//! matrix layout itself is fully specified and proved.

use vstd::prelude::*;

use crate::fixed::Fx;
use crate::fixed::SCALE;

verus! {

/// A two-component vector of fixed-point scalars.
#[derive(Clone, Copy, Debug, PartialEq, Eq, Structural)]
pub struct Vec2 {
    /// First component.
    pub x: Fx,
    /// Second component.
    pub y: Fx,
}

/// The evaluated cosine and sine of one angle, in fixed point.
#[derive(Clone, Copy, Debug, PartialEq, Eq, Structural)]
pub struct Trig {
    /// The cosine of the angle.
    pub cos: Fx,
    /// The sine of the angle.
    pub sin: Fx,
}

impl Trig {
    /// A cosine/sine pair is valid when both lie in `[-1, 1]`.
    pub open spec fn wf(self) -> bool {
        &&& -SCALE <= self.cos.micros <= SCALE
        &&& -SCALE <= self.sin.micros <= SCALE
    }

    /// The cosine/sine pair of the angle zero.
    pub fn of_zero_angle() -> (r: Trig)
        ensures
            r.cos.micros == SCALE,
            r.sin.micros == 0,
            r.wf(),
    {
        Trig { cos: Fx::one(), sin: Fx::zero() }
    }
}

/// One row of a 4x4 matrix.
#[derive(Clone, Copy, Debug, PartialEq, Eq, Structural)]
pub struct Row4 {
    /// First entry.
    pub x: Fx,
    /// Second entry.
    pub y: Fx,
    /// Third entry.
    pub z: Fx,
    /// Fourth entry.
    pub w: Fx,
}

/// A 4x4 matrix of fixed-point scalars, stored row by row.
#[derive(Clone, Copy, Debug, PartialEq, Eq, Structural)]
pub struct Mat4 {
    /// Row 0.
    pub r0: Row4,
    /// Row 1.
    pub r1: Row4,
    /// Row 2.
    pub r2: Row4,
    /// Row 3.
    pub r3: Row4,
}

/// Builds the frame transform from a translation and the evaluated
/// cosine/sine pairs of the two rotation angles.
///
/// Row 0 is `[cos a, sin a, 0, 0]` and row 1 is `[-sin b, cos b, 0, 0]`,
/// where `a` and `b` are the two rotation angles; row 2 is `[0, 0, 1, 0]`
/// and row 3 holds the translation, `[tx, ty, 0, 1]`.
pub fn derive_matrix(translation: Vec2, rotation: (Trig, Trig)) -> (m: Mat4)
    requires
        rotation.0.wf(),
        rotation.1.wf(),
    ensures
        m.r0.x == rotation.0.cos,
        m.r0.y == rotation.0.sin,
        m.r0.z.micros == 0,
        m.r0.w.micros == 0,
        m.r1.x.micros == -rotation.1.sin.micros,
        m.r1.y == rotation.1.cos,
        m.r1.z.micros == 0,
        m.r1.w.micros == 0,
        m.r2.x.micros == 0,
        m.r2.y.micros == 0,
        m.r2.z.micros == SCALE,
        m.r2.w.micros == 0,
        m.r3.x == translation.x,
        m.r3.y == translation.y,
        m.r3.z.micros == 0,
        m.r3.w.micros == SCALE,
{
    let zero = Fx::zero();
    let one = Fx::one();
    Mat4 {
        r0: Row4 { x: rotation.0.cos, y: rotation.0.sin, z: zero, w: zero },
        r1: Row4 { x: rotation.1.sin.neg(), y: rotation.1.cos, z: zero, w: zero },
        r2: Row4 { x: zero, y: zero, z: one, w: zero },
        r3: Row4 { x: translation.x, y: translation.y, z: zero, w: one },
    }
}

} // verus!
