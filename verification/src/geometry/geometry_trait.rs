//! What a shape has to tell about itself before it can be stored in device
//! buffers.

use vstd::prelude::*;

verus! {

/// Bytes of one element of three 32-bit floats.
pub const VEC3_BYTES: usize = 12;

/// Bytes of one element of two 32-bit floats.
pub const VEC2_BYTES: usize = 8;

/// Bytes of one index.
pub const INDEX_BYTES: usize = 4;

/// The number of elements in each array of a shape.
pub struct GeometryView {
    pub vertices: nat,
    pub tex_coords: nat,
    pub normals: nat,
    pub indices: nat,
}

impl GeometryView {
    /// Every array of the shape has a byte length that a signed size holds.
    pub open spec fn wf(self) -> bool {
        &&& self.vertices * VEC3_BYTES <= isize::MAX
        &&& self.tex_coords * VEC2_BYTES <= isize::MAX
        &&& self.normals * VEC3_BYTES <= isize::MAX
        &&& self.indices * INDEX_BYTES <= isize::MAX
    }
}

/// A shape whose per-vertex arrays can be stored in device buffers.
pub trait RenderableGeometry {
    /// The number of elements in each array.
    spec fn geometry(&self) -> GeometryView;

    /// Number of bytes of the vertices.
    fn len_vertices_bytes(&self) -> (bytes: isize)
        requires
            self.geometry().wf(),
        ensures
            bytes == self.geometry().vertices * VEC3_BYTES,
    ;

    /// Number of bytes of the indices.
    fn len_indices_bytes(&self) -> (bytes: isize)
        requires
            self.geometry().wf(),
        ensures
            bytes == self.geometry().indices * INDEX_BYTES,
    ;

    /// Number of bytes of the texture coordinates.
    fn len_tex_coords_bytes(&self) -> (bytes: isize)
        requires
            self.geometry().wf(),
        ensures
            bytes == self.geometry().tex_coords * VEC2_BYTES,
    ;

    /// Number of bytes of the normals.
    fn len_normals_bytes(&self) -> (bytes: isize)
        requires
            self.geometry().wf(),
        ensures
            bytes == self.geometry().normals * VEC3_BYTES,
    ;

    /// Number of vertices.
    fn num_vertices(&self) -> (count: usize)
        ensures
            count == self.geometry().vertices,
    ;

    /// Number of texture coordinates.
    fn num_tex_coords(&self) -> (count: usize)
        ensures
            count == self.geometry().tex_coords,
    ;

    /// Number of normals.
    fn num_normals(&self) -> (count: usize)
        ensures
            count == self.geometry().normals,
    ;

    /// Number of indices.
    fn num_indices(&self) -> (count: usize)
        ensures
            count == self.geometry().indices,
    ;
}

} // verus!
