//! A model loaded from a file, reduced to the sizes of its arrays.

use vstd::prelude::*;
use crate::geometry::geometry_trait::{
    GeometryView,
    RenderableGeometry,
    INDEX_BYTES,
    VEC2_BYTES,
    VEC3_BYTES,
};

verus! {

/// One mesh of a model file as a loader hands it out: its indices, which
/// count from the first vertex of the mesh, and the numbers of values in
/// its arrays of positions, normals and texture coordinates.
pub struct Mesh {
    pub indices: Vec<u32>,
    /// Number of values of the positions: three to a vertex.
    pub positions: usize,
    /// Number of values of the normals: three to a normal.
    pub normals: usize,
    /// Number of values of the texture coordinates: two to a coordinate.
    pub texcoords: usize,
}

/// The arrays of a mesh.
#[derive(Clone, Copy, Debug, PartialEq, Eq, Structural)]
pub enum MeshPart {
    Vertices,
    Normals,
    TexCoords,
}

/// Number of elements in one array of a mesh.
pub open spec fn elements_of(mesh: Mesh, part: MeshPart) -> nat {
    match part {
        MeshPart::Vertices => mesh.positions as nat / 3,
        MeshPart::Normals => mesh.normals as nat / 3,
        MeshPart::TexCoords => mesh.texcoords as nat / 2,
    }
}

/// Number of elements that the first `k` meshes have in one array.
pub open spec fn elements_before(meshes: Seq<Mesh>, k: int, part: MeshPart) -> nat
    decreases k,
{
    if k <= 0 {
        0
    } else {
        elements_before(meshes, k - 1, part) + elements_of(meshes[k - 1], part)
    }
}

/// Number of indices that the first `k` meshes have.
pub open spec fn indices_before(meshes: Seq<Mesh>, k: int) -> nat
    decreases k,
{
    if k <= 0 {
        0
    } else {
        indices_before(meshes, k - 1) + meshes[k - 1].indices@.len()
    }
}

/// The indices of a mesh once the model has `offset` vertices in front of
/// the first vertex of the mesh.
pub open spec fn rebased(indices: Seq<u32>, offset: nat) -> Seq<int> {
    Seq::new(indices.len(), |i: int| indices[i] + offset)
}

/// The indices of the first `k` meshes, made to count from the first
/// vertex of the model.
pub open spec fn merged_indices(meshes: Seq<Mesh>, k: int) -> Seq<int>
    decreases k,
{
    if k <= 0 {
        Seq::empty()
    } else {
        merged_indices(meshes, k - 1) + rebased(
            meshes[k - 1].indices@,
            elements_before(meshes, k - 1, MeshPart::Vertices),
        )
    }
}

/// The sizes of the arrays of the model that the meshes make together.
pub open spec fn merged_geometry(meshes: Seq<Mesh>) -> GeometryView {
    GeometryView {
        vertices: elements_before(meshes, meshes.len() as int, MeshPart::Vertices),
        tex_coords: elements_before(meshes, meshes.len() as int, MeshPart::TexCoords),
        normals: elements_before(meshes, meshes.len() as int, MeshPart::Normals),
        indices: indices_before(meshes, meshes.len() as int),
    }
}

/// Whether the meshes make a model: every index still fits 32 bits once
/// it counts from the first vertex of the model, and every array has a
/// byte length that a signed size holds.
pub open spec fn mergeable(meshes: Seq<Mesh>) -> bool {
    &&& merged_geometry(meshes).wf()
    &&& forall|i: int|
        0 <= i < merged_indices(meshes, meshes.len() as int).len() ==> #[trigger] merged_indices(
            meshes,
            meshes.len() as int,
        )[i] <= u32::MAX
}

/// The more meshes are counted, the more elements there are.
pub proof fn lemma_elements_before_monotonic(meshes: Seq<Mesh>, j: int, k: int, part: MeshPart)
    requires
        j <= k,
    ensures
        elements_before(meshes, j, part) <= elements_before(meshes, k, part),
    decreases k - j,
{
    if j < k {
        lemma_elements_before_monotonic(meshes, j, k - 1, part);
    }
}

/// The more meshes are counted, the more indices there are, and the
/// indices of the meshes counted before stay what they are.
pub proof fn lemma_merged_indices_prefix(meshes: Seq<Mesh>, j: int, k: int)
    requires
        0 <= j <= k,
    ensures
        indices_before(meshes, j) <= indices_before(meshes, k),
        merged_indices(meshes, j).len() == indices_before(meshes, j),
        merged_indices(meshes, k).len() == indices_before(meshes, k),
        forall|i: int|
            0 <= i < indices_before(meshes, j) ==> merged_indices(meshes, j)[i] == merged_indices(
                meshes,
                k,
            )[i],
    decreases k,
{
    if k > 0 {
        if j < k {
            lemma_merged_indices_prefix(meshes, j, k - 1);
        } else {
            lemma_merged_indices_prefix(meshes, j - 1, k - 1);
        }
    }
}

/// The sizes of the arrays of a model.
#[derive(Clone, Copy, Debug)]
pub struct Model {
    vertices: usize,
    indices: usize,
    normals: usize,
    tex_coordinates: usize,
}

impl Model {
    /// Every array of the model has a byte length that a signed size holds.
    pub open spec fn wf(&self) -> bool {
        self.geometry().wf()
    }

    /// A model with arrays of the given numbers of elements, unless the bytes
    /// of one of them are more than a signed size holds.
    pub fn new(vertices: usize, tex_coordinates: usize, normals: usize, indices: usize) -> (model:
        Option<Model>)
        ensures
            model is Some <==> (GeometryView {
                vertices: vertices as nat,
                tex_coords: tex_coordinates as nat,
                normals: normals as nat,
                indices: indices as nat,
            }).wf(),
            model is Some ==> model->0.wf() && model->0.geometry() == (GeometryView {
                vertices: vertices as nat,
                tex_coords: tex_coordinates as nat,
                normals: normals as nat,
                indices: indices as nat,
            }),
    {
        let limit: usize = isize::MAX as usize;
        if vertices <= limit / VEC3_BYTES && tex_coordinates <= limit / VEC2_BYTES && normals
            <= limit / VEC3_BYTES && indices <= limit / INDEX_BYTES {
            Some(Model { vertices, indices, normals, tex_coordinates })
        } else {
            None
        }
    }

    /// Puts the meshes of a model file together: the arrays of every mesh
    /// go behind those of the meshes before it, and its indices are made to
    /// count from the first vertex of the model. Returns the sizes of the
    /// model and its indices, unless the meshes make no model.
    pub fn from_meshes(meshes: &Vec<Mesh>) -> (merged: Option<(Model, Vec<u32>)>)
        ensures
            merged is Some <==> mergeable(meshes@),
            merged matches Some(made) ==> {
                &&& made.0.wf()
                &&& made.0.geometry() == merged_geometry(meshes@)
                &&& made.1@.len() == merged_indices(meshes@, meshes@.len() as int).len()
                &&& forall|i: int|
                    0 <= i < made.1@.len() ==> #[trigger] made.1@[i] == merged_indices(
                        meshes@,
                        meshes@.len() as int,
                    )[i]
            },
    {
        let limit: usize = isize::MAX as usize;
        let ghost all = meshes@;
        let ghost count = meshes@.len() as int;
        let mut vertices: usize = 0;
        let mut normals: usize = 0;
        let mut tex_coordinates: usize = 0;
        let mut indices: Vec<u32> = Vec::new();
        let mut m: usize = 0;
        while m < meshes.len()
            invariant
                m <= count,
                all == meshes@,
                count == all.len(),
                limit == isize::MAX,
                vertices == elements_before(all, m as int, MeshPart::Vertices),
                normals == elements_before(all, m as int, MeshPart::Normals),
                tex_coordinates == elements_before(all, m as int, MeshPart::TexCoords),
                vertices <= limit / VEC3_BYTES,
                normals <= limit / VEC3_BYTES,
                tex_coordinates <= limit / VEC2_BYTES,
                indices@.len() == indices_before(all, m as int),
                indices@.len() <= limit / INDEX_BYTES,
                indices@.len() == merged_indices(all, m as int).len(),
                forall|i: int|
                    0 <= i < indices@.len() ==> #[trigger] indices@[i] == merged_indices(
                        all,
                        m as int,
                    )[i],
            decreases count - m,
        {
            let mesh: &Mesh = &meshes[m];
            let ghost before = indices@;
            proof {
                lemma_merged_indices_prefix(all, m + 1, count);
                lemma_merged_indices_prefix(all, m as int, m + 1);
                lemma_elements_before_monotonic(all, m + 1, count, MeshPart::Vertices);
                lemma_elements_before_monotonic(all, m + 1, count, MeshPart::Normals);
                lemma_elements_before_monotonic(all, m + 1, count, MeshPart::TexCoords);
            }
            if mesh.indices.len() > limit / INDEX_BYTES - indices.len() {
                return None;
            }
            let mut i: usize = 0;
            while i < mesh.indices.len()
                invariant
                    i <= mesh.indices@.len(),
                    m < count,
                    all == meshes@,
                    count == all.len(),
                    mesh == all[m as int],
                    vertices == elements_before(all, m as int, MeshPart::Vertices),
                    before.len() == indices_before(all, m as int),
                    before.len() == merged_indices(all, m as int).len(),
                    forall|j: int|
                        0 <= j < before.len() ==> #[trigger] before[j] == merged_indices(
                            all,
                            m as int,
                        )[j],
                    merged_indices(all, m + 1) == merged_indices(all, m as int) + rebased(
                        mesh.indices@,
                        vertices as nat,
                    ),
                    indices_before(all, m + 1) == before.len() + mesh.indices@.len(),
                    before.len() + mesh.indices@.len() <= limit / INDEX_BYTES,
                    merged_indices(all, count).len() == indices_before(all, count),
                    indices_before(all, m + 1) <= indices_before(all, count),
                    forall|j: int|
                        0 <= j < indices_before(all, m + 1) ==> merged_indices(all, m + 1)[j]
                            == merged_indices(all, count)[j],
                    indices@.len() == before.len() + i,
                    forall|j: int| 0 <= j < before.len() ==> indices@[j] == before[j],
                    forall|j: int|
                        0 <= j < i ==> #[trigger] indices@[before.len() + j] == mesh.indices@[j]
                            + vertices,
                decreases mesh.indices@.len() - i,
            {
                let index: u32 = mesh.indices[i];
                if vertices > u32::MAX as usize || index > u32::MAX - vertices as u32 {
                    proof {
                        let at = before.len() + i;
                        assert(merged_indices(all, m + 1)[at] == rebased(
                            mesh.indices@,
                            vertices as nat,
                        )[i as int]);
                        assert(merged_indices(all, count)[at] > u32::MAX);
                    }
                    return None;
                }
                indices.push(index + vertices as u32);
                i = i + 1;
            }
            proof {
                assert forall|j: int| 0 <= j < indices@.len() implies #[trigger] indices@[j]
                    == merged_indices(all, m + 1)[j] by {
                    if j < before.len() {
                        assert(indices@[j] == before[j]);
                        assert(before[j] == merged_indices(all, m as int)[j]);
                    } else {
                        assert(indices@[before.len() + (j - before.len())] == mesh.indices@[j
                            - before.len()] + vertices);
                        assert(merged_indices(all, m + 1)[j] == rebased(
                            mesh.indices@,
                            vertices as nat,
                        )[j - before.len()]);
                    }
                }
            }
            let more_vertices: usize = mesh.positions / 3;
            let more_normals: usize = mesh.normals / 3;
            let more_tex_coordinates: usize = mesh.texcoords / 2;
            if more_vertices > limit / VEC3_BYTES - vertices || more_normals > limit / VEC3_BYTES
                - normals || more_tex_coordinates > limit / VEC2_BYTES - tex_coordinates {
                return None;
            }
            vertices = vertices + more_vertices;
            normals = normals + more_normals;
            tex_coordinates = tex_coordinates + more_tex_coordinates;
            m = m + 1;
        }
        let model = Model { vertices, indices: indices.len(), normals, tex_coordinates };
        proof {
            assert(model.geometry() == merged_geometry(all));
            assert forall|i: int|
                0 <= i < merged_indices(all, count).len() implies #[trigger] merged_indices(
                all,
                count,
            )[i] <= u32::MAX by {
                assert(indices@[i] == merged_indices(all, count)[i]);
            }
        }
        Some((model, indices))
    }
}

impl RenderableGeometry for Model {
    closed spec fn geometry(&self) -> GeometryView {
        GeometryView {
            vertices: self.vertices as nat,
            tex_coords: self.tex_coordinates as nat,
            normals: self.normals as nat,
            indices: self.indices as nat,
        }
    }

    fn len_vertices_bytes(&self) -> (bytes: isize) {
        (self.vertices * VEC3_BYTES) as isize
    }

    fn len_indices_bytes(&self) -> (bytes: isize) {
        (self.indices * INDEX_BYTES) as isize
    }

    fn len_tex_coords_bytes(&self) -> (bytes: isize) {
        (self.tex_coordinates * VEC2_BYTES) as isize
    }

    fn len_normals_bytes(&self) -> (bytes: isize) {
        (self.normals * VEC3_BYTES) as isize
    }

    fn num_vertices(&self) -> (count: usize) {
        self.vertices
    }

    fn num_tex_coords(&self) -> (count: usize) {
        self.tex_coordinates
    }

    fn num_normals(&self) -> (count: usize) {
        self.normals
    }

    fn num_indices(&self) -> (count: usize) {
        self.indices
    }
}

} // verus!
