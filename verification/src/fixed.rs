//! Fixed-point scalars.
//!
//! The demo animates a handful of real-valued quantities (a clock, a uniform
//! offset, matrix entries). This crate represents each of them as a count of
//! millionths of a unit, so every value and every step of arithmetic is exact
//! and provable.

use vstd::prelude::*;

verus! {

/// Millionths of a unit in one whole unit.
pub const SCALE: i64 = 1_000_000;

/// A fixed-point scalar: the value `micros / 1_000_000`.
#[derive(Clone, Copy, Debug, PartialEq, Eq, Structural)]
pub struct Fx {
    /// The value in millionths of a unit.
    pub micros: i64,
}

impl Fx {
    /// The scalar zero.
    pub fn zero() -> (r: Fx)
        ensures
            r.micros == 0,
    {
        Fx { micros: 0 }
    }

    /// The scalar one.
    pub fn one() -> (r: Fx)
        ensures
            r.micros == SCALE,
    {
        Fx { micros: SCALE }
    }

    /// The scalar holding exactly `micros` millionths of a unit.
    pub fn from_micros(micros: i64) -> (r: Fx)
        ensures
            r.micros == micros,
    {
        Fx { micros }
    }

    /// The negated scalar.
    pub fn neg(self) -> (r: Fx)
        requires
            self.micros > i64::MIN,
        ensures
            r.micros == -self.micros,
    {
        Fx { micros: -self.micros }
    }
}

} // verus!
