//! The ranges of the shared buffers that one draw call of a model reads.

use vstd::prelude::*;

verus! {

/// Where the data of one model starts in the shared vertex, index and
/// instance buffers, and how much of it there is.
#[derive(Clone, Copy, Debug, PartialEq, Eq, Structural)]
pub struct DrawCallInfo {
    /// First vertex of the model, in vertices.
    pub vertex_offset: i32,
    pub vertex_count: i32,
    /// First index of the model, in bytes into the index buffer.
    pub indice_offset: isize,
    pub indice_count: i32,
    /// First instance of the model, in instances.
    pub instance_offset: u32,
    pub instance_count: i32,
}

/// The way a model is drawn.
#[derive(Clone, Copy, Debug, PartialEq, Eq, Structural)]
pub enum RenderFunction {
    /// The cube that stands for a point of the cloud: drawn into the shadow
    /// map, into the side views and into the scene, once per instance.
    Cube,
    /// The plane onto which the side views and the shadow map are drawn.
    Plane,
    /// The sun.
    Sun,
    /// The arrow that marks what the sun looks at.
    SunArrow,
}

} // verus!
