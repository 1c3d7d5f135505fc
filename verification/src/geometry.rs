//! The static triangle geometry.
//!
//! The demo draws one triangle whose three vertices never change after
//! startup.

use vstd::prelude::*;

use crate::fixed::Fx;

verus! {

/// A vertex: a two-dimensional position in fixed point.
#[derive(Clone, Copy, Debug, PartialEq, Eq, Structural)]
pub struct Vertex {
    /// Horizontal position.
    pub x: Fx,
    /// Vertical position.
    pub y: Fx,
}

/// The three vertices of the demo's triangle: `(-0.5, -0.5)`, `(0.0, 0.5)`
/// and `(0.5, -0.25)`.
pub fn triangle() -> (v: Vec<Vertex>)
    ensures
        v@.len() == 3,
        v@[0].x.micros == -500_000,
        v@[0].y.micros == -500_000,
        v@[1].x.micros == 0,
        v@[1].y.micros == 500_000,
        v@[2].x.micros == 500_000,
        v@[2].y.micros == -250_000,
{
    let v1 = Vertex { x: Fx::from_micros(-500_000), y: Fx::from_micros(-500_000) };
    let v2 = Vertex { x: Fx::from_micros(0), y: Fx::from_micros(500_000) };
    let v3 = Vertex { x: Fx::from_micros(500_000), y: Fx::from_micros(-250_000) };
    let mut v: Vec<Vertex> = Vec::new();
    v.push(v1);
    v.push(v2);
    v.push(v3);
    v
}

} // verus!
