//! The fixed shader sources.
//!
//! The demo compiles one vertex/fragment shader pair at startup from embedded
//! source strings and never changes them afterwards. The accessors below are
//! pinned to those exact strings, so every call returns the same source.

use vstd::prelude::*;

verus! {

/// The vertex shader source, as a sequence of characters.
pub open spec fn vertex_shader_source_spec() -> Seq<char> {
    "#version 140\n\nin vec2 position;\nuniform float x;\nuniform mat4 matrix;\n\nvoid main() {\n    vec2 pos = position;\n    gl_Position = matrix * vec4(pos, 0.0, 1.0);\n}\n"@
}

/// The fragment shader source, as a sequence of characters.
pub open spec fn fragment_shader_source_spec() -> Seq<char> {
    "#version 140\n\nout vec4 color;\nuniform float x;\n\nvoid main() {\n    color = vec4(1.0 * x, 1.0 * x * 0.5, 1 * (x * 0.2), 1.0);\n}\n"@
}

/// The vertex shader: offsets the position by the uniform matrix. Always the
/// same fixed source.
pub fn vertex_shader_source() -> (r: &'static str)
    ensures
        r@ == vertex_shader_source_spec(),
{
    "#version 140\n\nin vec2 position;\nuniform float x;\nuniform mat4 matrix;\n\nvoid main() {\n    vec2 pos = position;\n    gl_Position = matrix * vec4(pos, 0.0, 1.0);\n}\n"
}

/// The fragment shader: scales the color channels by the uniform scalar.
/// Always the same fixed source.
pub fn fragment_shader_source() -> (r: &'static str)
    ensures
        r@ == fragment_shader_source_spec(),
{
    "#version 140\n\nout vec4 color;\nuniform float x;\n\nvoid main() {\n    color = vec4(1.0 * x, 1.0 * x * 0.5, 1 * (x * 0.2), 1.0);\n}\n"
}

} // verus!
