//! The fixed window and framebuffer configuration.

use vstd::prelude::*;

use crate::fixed::Fx;
use crate::fixed::SCALE;

verus! {

/// The window's inner width in logical pixels.
pub const WINDOW_WIDTH: u32 = 1024;

/// The window's inner height in logical pixels.
pub const WINDOW_HEIGHT: u32 = 768;

/// The window title, as a sequence of characters.
pub open spec fn window_title_spec() -> Seq<char> {
    "Hello world"@
}

/// The window title.
pub fn window_title() -> (r: &'static str)
    ensures
        r@ == window_title_spec(),
{
    "Hello world"
}

/// An RGBA color of fixed-point channels.
#[derive(Clone, Copy, Debug, PartialEq, Eq, Structural)]
pub struct Color {
    /// Red channel.
    pub red: Fx,
    /// Green channel.
    pub green: Fx,
    /// Blue channel.
    pub blue: Fx,
    /// Alpha channel.
    pub alpha: Fx,
}

/// The color the framebuffer is cleared to every frame: opaque blue.
pub fn clear_color() -> (c: Color)
    ensures
        c.red.micros == 0,
        c.green.micros == 0,
        c.blue.micros == SCALE,
        c.alpha.micros == SCALE,
{
    Color { red: Fx::zero(), green: Fx::zero(), blue: Fx::one(), alpha: Fx::one() }
}

} // verus!
