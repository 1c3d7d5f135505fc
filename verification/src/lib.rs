//! A small animation library for a windowed triangle demo.
//!
//! The renderer itself (window, OpenGL context, draw calls) lives outside this
//! crate; what lives here is everything that can be stated and proved:
//! fixed-point scalars standing in for the demo's animated values, the
//! per-frame clock, the rotation/translation matrix builder, the event-loop
//! state machine, and the fixed shader sources and window configuration.

pub mod config;
pub mod events;
pub mod fixed;
pub mod frame;
pub mod geometry;
pub mod shaders;
pub mod transform;

pub use fixed::Fx;
