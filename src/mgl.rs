use vstd::prelude::*;

verus! {

/// Value of OpenGL's `GL_TRIANGLES` primitive mode.
pub const GL_TRIANGLES_MODE: u32 = 0x0004;

/// Value of OpenGL's `GL_LINES` primitive mode.
pub const GL_LINES_MODE: u32 = 0x0001;

/// Relies on the `gl` crate's `TRIANGLES` constant, which its bindings take
/// from the Khronos registry (`GL_TRIANGLES` = 0x0004).
#[verifier::external_body]
fn gl_triangles() -> (r: u32)
    ensures
        r == GL_TRIANGLES_MODE,
{
    gl::TRIANGLES
}

/// Relies on the `gl` crate's `LINES` constant, which its bindings take from
/// the Khronos registry (`GL_LINES` = 0x0001).
#[verifier::external_body]
fn gl_lines() -> (r: u32)
    ensures
        r == GL_LINES_MODE,
{
    gl::LINES
}

/// How the vertices of a mesh are joined when it is drawn.
#[derive(Clone, Copy, Debug, PartialEq, Eq, Structural)]
pub enum MeshRenderMode {
    Triangles,
    Lines,
}

impl MeshRenderMode {
    /// The OpenGL primitive mode for this render mode.
    pub fn to_gl_type(&self) -> (r: u32)
        ensures
            r == match *self {
                MeshRenderMode::Triangles => GL_TRIANGLES_MODE,
                MeshRenderMode::Lines => GL_LINES_MODE,
            },
    {
        match *self {
            MeshRenderMode::Triangles => gl_triangles(),
            MeshRenderMode::Lines => gl_lines(),
        }
    }
}

} // verus!
