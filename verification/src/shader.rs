//! GPU program handles, shader build failures, and vertex attribute
//! layouts. Compiling and linking happen in the GPU shell; the core keeps
//! the typed handle and decides what a build status means.

use vstd::prelude::*;

verus! {

/// The status value a complete framebuffer reports.
pub const FRAMEBUFFER_COMPLETE_STATUS: u32 = 0x8cd5;

/// The GPU's tag for 32-bit float vertex components.
pub const GL_FLOAT_TYPE: u32 = 0x1406;

/// A shader build failure, with the build log.
#[derive(Clone, Debug, PartialEq, Eq)]
pub enum ShaderError {
    /// A shader stage failed to compile.
    Compile(String),
    /// The program failed to link.
    Linking(String),
}

/// A linked GPU program, by its handle. Only the shell that linked the
/// program produces one.
#[derive(Clone, Copy, Debug, PartialEq, Eq, Structural)]
pub struct Shader {
    pub program: u32,
}

impl Shader {
    /// Wraps the handle of a successfully linked program.
    pub fn new(program: u32) -> (s: Shader)
        ensures
            s == (Shader { program }),
    {
        Shader { program }
    }

    /// The program handle.
    pub fn program(&self) -> (p: u32)
        ensures
            p == self.program,
    {
        self.program
    }
}

/// The shape of one vertex attribute.
#[derive(Clone, Copy, Debug, PartialEq, Eq, Structural)]
pub enum VertexAttribute {
    Float,
    Vec2,
    Vec3,
    Vec4,
}

impl VertexAttribute {
    /// How many float components the attribute has.
    pub fn gl_size(&self) -> (n: i32)
        ensures
            n == match *self {
                VertexAttribute::Float => 1int,
                VertexAttribute::Vec2 => 2int,
                VertexAttribute::Vec3 => 3int,
                VertexAttribute::Vec4 => 4int,
            },
    {
        match self {
            VertexAttribute::Float => 1,
            VertexAttribute::Vec2 => 2,
            VertexAttribute::Vec3 => 3,
            VertexAttribute::Vec4 => 4,
        }
    }

    /// The component type tag: every attribute is made of floats.
    pub fn gl_type(&self) -> (t: u32)
        ensures
            t == GL_FLOAT_TYPE,
    {
        GL_FLOAT_TYPE
    }
}

/// Whether a reported framebuffer status means the off-screen target is
/// complete; an incomplete target is fatal at load.
pub fn framebuffer_complete(status: u32) -> (r: bool)
    ensures
        r == (status == FRAMEBUFFER_COMPLETE_STATUS),
{
    status == FRAMEBUFFER_COMPLETE_STATUS
}

} // verus!
