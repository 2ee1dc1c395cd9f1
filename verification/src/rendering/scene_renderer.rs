//! The scene: static geometry uploaded once, and per-instance data streamed
//! through ring buffers whenever the point cloud changes.

use vstd::prelude::*;
use vstd::string::StringExecFns;
use crate::geometry::geometry_trait::{RenderableGeometry, INDEX_BYTES, VEC2_BYTES, VEC3_BYTES};
use crate::geometry::grid::{
    grid_colours,
    grid_translations,
    half_lines,
    Grid,
    GridView,
    GRID_VERTICES,
};
use crate::geometry::model::Model;
use crate::gl_wrappers::buffer::{Buffer, BufferType, BufferView, CopyCommand, WriteCommand};
use crate::gl_wrappers::vao::{attribute_bytes, AttributeFormat, DataType, Divisor, VAOView, VAO};
use crate::gl_wrappers::shader_program_creation::{
    count_shaders,
    shader_error,
    ShaderInitInfo,
    ShaderProgram,
    ShaderType,
};
use crate::rendering::draw_functions::{DrawCallInfo, RenderFunction};

verus! {

/// Vertices at the start of the per-vertex buffers that are kept for the
/// marker from the sun to what it looks at.
pub const SUN_ARROW_VERTICES: usize = 2;

/// Nanoseconds that each step of a fence wait may take.
pub const FENCE_TIMEOUT: u64 = 5_000_000;

/// Lines across each dimension of the world grid of a scene.
pub const GRID_LINES: i32 = 500;

/// Elements in front of the first model in the per-vertex buffers: the sun
/// marker and the grid.
pub const RESERVED_VERTICES: usize = 10;

/// The geometry of a model and the way to draw it.
#[derive(Clone, Copy, Debug)]
pub struct RenderInformation {
    pub geometry: Model,
    pub command: RenderFunction,
}

/// Identifies a model of a scene.
#[derive(Copy, Clone, Debug, PartialEq, Eq, Structural)]
pub struct ModelId {
    id: usize,
}

impl ModelId {
    /// The place of the model among the models of its scene.
    pub closed spec fn index(self) -> int {
        self.id as int
    }

    /// The place of the model among the models of its scene.
    pub fn position(&self) -> (index: usize)
        ensures
            index == self.index(),
    {
        self.id
    }
}

/// One array of a model.
#[derive(Clone, Copy, Debug, PartialEq, Eq, Structural)]
pub enum GeometryPart {
    Vertices,
    TexCoords,
    Normals,
    Indices,
}

/// Number of elements in one array of a model.
pub open spec fn count_of(model: RenderInformation, part: GeometryPart) -> nat {
    match part {
        GeometryPart::Vertices => model.geometry.geometry().vertices,
        GeometryPart::TexCoords => model.geometry.geometry().tex_coords,
        GeometryPart::Normals => model.geometry.geometry().normals,
        GeometryPart::Indices => model.geometry.geometry().indices,
    }
}

/// Number of elements that the first `k` models have in one array.
pub open spec fn total_before(models: Seq<RenderInformation>, k: int, part: GeometryPart) -> nat
    decreases k,
{
    if k <= 0 {
        0
    } else {
        total_before(models, k - 1, part) + count_of(models[k - 1], part)
    }
}

/// Number of elements that all models have in one array.
pub open spec fn total_of(models: Seq<RenderInformation>, part: GeometryPart) -> nat {
    total_before(models, models.len() as int, part)
}

/// The more models are counted, the more elements there are.
pub proof fn lemma_total_before_monotonic(
    models: Seq<RenderInformation>,
    j: int,
    k: int,
    part: GeometryPart,
)
    requires
        j <= k,
    ensures
        total_before(models, j, part) <= total_before(models, k, part),
    decreases k - j,
{
    if j < k {
        lemma_total_before_monotonic(models, j, k - 1, part);
    }
}

/// Why a scene cannot be set up.
#[derive(Clone, Copy, Debug, PartialEq, Eq, Structural)]
pub enum SceneError {
    /// A buffer would need more bytes than a signed size holds, or a count
    /// would not fit the 32 bits of a draw call.
    TooLarge,
    /// The instance buffers have no room for the entries that match the
    /// static geometry.
    CapacityTooSmall,
}

/// Whether every buffer of a scene has a size that can be addressed and
/// every count fits a draw call.
pub open spec fn sizes_fit(models: Seq<RenderInformation>, max_number_instances: u32) -> bool {
    &&& max_number_instances <= i32::MAX
    &&& max_number_instances * VEC3_BYTES <= isize::MAX
    &&& total_of(models, GeometryPart::Indices) <= i32::MAX
    &&& total_of(models, GeometryPart::Indices) * INDEX_BYTES <= isize::MAX
    &&& (RESERVED_VERTICES + total_of(models, GeometryPart::TexCoords)) * VEC2_BYTES
        <= isize::MAX
    &&& (RESERVED_VERTICES + total_of(models, GeometryPart::Normals)) * VEC3_BYTES <= isize::MAX
}

/// Why a scene of these models and this capacity cannot be set up, if it
/// cannot.
pub open spec fn scene_error(models: Seq<RenderInformation>, max_number_instances: u32) -> Option<
    SceneError,
> {
    if !sizes_fit(models, max_number_instances) {
        Some(SceneError::TooLarge)
    } else if RESERVED_VERTICES + total_of(models, GeometryPart::Vertices)
        > max_number_instances {
        Some(SceneError::CapacityTooSmall)
    } else {
        None
    }
}

/// The six synchronised writes that store one shape: its own arrays, and an
/// all-zero translation and colour for each of its vertices.
#[derive(Clone, Copy, Debug, PartialEq, Eq, Structural)]
pub struct GeometryWrites {
    pub vertices: WriteCommand,
    pub tex_coords: WriteCommand,
    pub normals: WriteCommand,
    pub indices: WriteCommand,
    pub instanced_translations: WriteCommand,
    pub instanced_colours: WriteCommand,
}

/// The writes that store the static geometry of a scene: the grid first,
/// then the models in their order, each in the order of the fields of
/// [`GeometryWrites`].
pub struct GeometryUpload {
    pub grid: GeometryWrites,
    pub models: Vec<GeometryWrites>,
}

/// New instance data for one model: how many translations and how many
/// colours the caller has for it, where it has any.
#[derive(Clone, Copy, Debug, PartialEq, Eq, Structural)]
pub struct UploadInformation {
    pub model_id: ModelId,
    pub instance_translations: Option<usize>,
    pub instance_colours: Option<usize>,
}

impl UploadInformation {
    /// Whether the record has translations or colours at all.
    pub open spec fn carries_data(self) -> bool {
        self.instance_translations is Some || self.instance_colours is Some
    }

    /// The number of instances that the record asks for: as many as it has
    /// translations, or colours where it has no translations.
    pub open spec fn requested(self) -> nat {
        match (self.instance_translations, self.instance_colours) {
            (Some(translations), _) => translations as nat,
            (None, Some(colours)) => colours as nat,
            (None, None) => 0,
        }
    }
}

/// The number of instances that are stored of `requested`, where `cursor`
/// of `capacity` places are taken: all of them if they fit, else as many as
/// there is room for.
pub open spec fn clipped(capacity: nat, cursor: nat, requested: nat) -> nat {
    if cursor + requested > capacity {
        (capacity - cursor) as nat
    } else {
        requested
    }
}

/// The number of instances that the first `k` records ask for.
pub open spec fn requested_before(info: Seq<UploadInformation>, k: int) -> nat
    decreases k,
{
    if k <= 0 {
        0
    } else {
        requested_before(info, k - 1) + info[k - 1].requested()
    }
}

/// The first free place when the `k`-th record is reached, where the batch
/// started at `start`: everything asked for so far is stored, as far as
/// the capacity goes.
pub open spec fn cursor_before(
    capacity: nat,
    start: nat,
    info: Seq<UploadInformation>,
    k: int,
) -> nat {
    if start + requested_before(info, k) > capacity {
        capacity
    } else {
        start + requested_before(info, k)
    }
}

/// As many of `requested` instances as there is room for where `cursor` of
/// `capacity` places are taken.
pub fn clip_instances(capacity: u32, cursor: u32, requested: usize) -> (uploaded: u32)
    requires
        cursor <= capacity,
    ensures
        uploaded == clipped(capacity as nat, cursor as nat, requested as nat),
{
    let room: u32 = capacity - cursor;
    if requested > room as usize {
        room
    } else {
        requested as u32
    }
}

/// What is stored for one record of a batch.
#[derive(Clone, Copy, Debug, PartialEq, Eq, Structural)]
pub struct InstanceWrite {
    pub model_id: ModelId,
    /// Instances asked for.
    pub requested: usize,
    /// Instances stored. Fewer than asked for where the capacity ran out.
    pub uploaded: u32,
    /// The place of the first of them.
    pub instance_offset: u32,
    /// The copy of the first colours of the record, where it has colours.
    pub colours: Option<CopyCommand>,
    /// The copy of the first translations of the record, where it has any.
    pub translations: Option<CopyCommand>,
}

impl InstanceWrite {
    /// Whether what was stored for the record lies within `capacity`
    /// places: the places it got, and every element that is copied for it.
    pub open spec fn within(self, capacity: nat) -> bool {
        &&& self.uploaded <= self.requested
        &&& self.instance_offset + self.uploaded <= capacity
        &&& self.colours matches Some(copy) ==> copy.element_offset == self.instance_offset
            && copy.element_count <= self.uploaded && copy.element_size == VEC3_BYTES
        &&& self.translations matches Some(copy) ==> copy.element_offset == self.instance_offset
            && copy.element_count <= self.uploaded && copy.element_size == VEC3_BYTES
    }

    /// Whether instances were dropped for want of room.
    pub open spec fn is_clipped(&self) -> bool {
        self.uploaded < self.requested
    }

    /// Whether instances were dropped for want of room.
    #[verifier::when_used_as_spec(is_clipped)]
    pub fn clipped(&self) -> (dropped: bool)
        ensures
            dropped == self.is_clipped(),
    {
        (self.uploaded as usize) < self.requested
    }
}

/// The copy of the first `uploaded` of `available` elements to the place
/// `cursor` of `region`.
pub open spec fn instance_copy(region: int, cursor: nat, available: nat, uploaded: nat) -> CopyCommand {
    CopyCommand {
        region: region as usize,
        element_offset: cursor as isize,
        element_count: (if available < uploaded {
            available
        } else {
            uploaded
        }) as usize,
        element_size: VEC3_BYTES,
    }
}

/// What is stored for a record that is reached with `cursor` of `capacity`
/// places taken.
pub open spec fn instance_write(
    record: UploadInformation,
    capacity: nat,
    cursor: nat,
    colours_region: int,
    translations_region: int,
) -> InstanceWrite {
    let uploaded = clipped(capacity, cursor, record.requested());
    InstanceWrite {
        model_id: record.model_id,
        requested: record.requested() as usize,
        uploaded: uploaded as u32,
        instance_offset: cursor as u32,
        colours: match record.instance_colours {
            Some(colours) => Some(instance_copy(colours_region, cursor, colours as nat, uploaded)),
            None => None,
        },
        translations: match record.instance_translations {
            Some(translations) => Some(
                instance_copy(translations_region, cursor, translations as nat, uploaded),
            ),
            None => None,
        },
    }
}

/// The copy of as many of `available` elements as were stored of a record.
fn copy_of(region: usize, cursor: u32, available: usize, uploaded: u32) -> (copy: CopyCommand)
    requires
        cursor <= i32::MAX,
    ensures
        copy == instance_copy(region as int, cursor as nat, available as nat, uploaded as nat),
{
    let count: usize = if available < uploaded as usize {
        available
    } else {
        uploaded as usize
    };
    CopyCommand {
        region,
        element_offset: cursor as isize,
        element_count: count,
        element_size: VEC3_BYTES,
    }
}

/// Stores the records of a batch one behind the other, from the place
/// `start` on, in instance buffers of `capacity` places: every record gets
/// as many places as it asks for or, where that is more than are left, as
/// many as are left, and the copies of its colours and translations are cut
/// to what it got. The copies go into the given regions.
pub fn store_records(
    capacity: u32,
    start: u32,
    info: &Vec<UploadInformation>,
    colours_region: usize,
    translations_region: usize,
) -> (stored: Vec<InstanceWrite>)
    requires
        start <= capacity,
        capacity <= i32::MAX,
    ensures
        stored@ == Seq::new(
            info@.len(),
            |k: int|
                instance_write(
                    info@[k],
                    capacity as nat,
                    cursor_before(capacity as nat, start as nat, info@, k),
                    colours_region as int,
                    translations_region as int,
                ),
        ),
        forall|k: int| 0 <= k < stored@.len() ==> (#[trigger] stored@[k]).within(capacity as nat),
{
    let mut stored: Vec<InstanceWrite> = Vec::new();
    let mut cursor: u32 = start;
    let mut k: usize = 0;
    while k < info.len()
        invariant
            k <= info@.len(),
            start <= capacity <= i32::MAX,
            cursor == cursor_before(capacity as nat, start as nat, info@, k as int),
            cursor <= capacity,
            stored@ =~= Seq::new(
                k as nat,
                |j: int|
                    instance_write(
                        info@[j],
                        capacity as nat,
                        cursor_before(capacity as nat, start as nat, info@, j),
                        colours_region as int,
                        translations_region as int,
                    ),
            ),
            forall|j: int| 0 <= j < k ==> (#[trigger] stored@[j]).within(capacity as nat),
        decreases info@.len() - k,
    {
        let record: UploadInformation = info[k];
        let requested: usize = match (record.instance_translations, record.instance_colours) {
            (Some(translations), _) => translations,
            (None, Some(colours)) => colours,
            (None, None) => 0,
        };
        let uploaded: u32 = clip_instances(capacity, cursor, requested);
        let colours: Option<CopyCommand> = match record.instance_colours {
            Some(available) => Some(copy_of(colours_region, cursor, available, uploaded)),
            None => None,
        };
        let translations: Option<CopyCommand> = match record.instance_translations {
            Some(available) => Some(copy_of(translations_region, cursor, available, uploaded)),
            None => None,
        };
        stored.push(
            InstanceWrite {
                model_id: record.model_id,
                requested,
                uploaded,
                instance_offset: cursor,
                colours,
                translations,
            },
        );
        cursor = cursor + uploaded;
        k = k + 1;
    }
    stored
}

/// The draw calls after the first `k` records of a batch: every record
/// that carries data moves the instances of its model to where they were
/// stored; the vertices and indices of a model stay where they are.
pub open spec fn draw_calls_after(
    calls: Seq<DrawCallInfo>,
    capacity: nat,
    start: nat,
    info: Seq<UploadInformation>,
    k: int,
) -> Seq<DrawCallInfo>
    decreases k,
{
    if k <= 0 {
        calls
    } else {
        let before = draw_calls_after(calls, capacity, start, info, k - 1);
        let record = info[k - 1];
        let cursor = cursor_before(capacity, start, info, k - 1);
        if record.carries_data() {
            before.update(
                record.model_id.index(),
                DrawCallInfo {
                    instance_offset: cursor as u32,
                    instance_count: clipped(capacity, cursor, record.requested()) as i32,
                    ..before[record.model_id.index()]
                },
            )
        } else {
            before
        }
    }
}

/// The writes of one batch of instance data: the grid lines first, with
/// the one synchronised write that each of the two instance buffers gets
/// per batch, then the records in their order, colours before translations,
/// as plain copies into the regions that were just waited for.
pub struct InstanceUpload {
    /// Grid lines there are.
    pub grid_requested: usize,
    /// Grid lines stored.
    pub grid_uploaded: u32,
    pub grid_colours: WriteCommand,
    pub grid_translations: WriteCommand,
    pub models: Vec<InstanceWrite>,
}

/// One instanced draw of a half axis of the grid: two vertices, repeated
/// once per grid line.
#[derive(Clone, Copy, Debug, PartialEq, Eq, Structural)]
pub struct GridDraw {
    pub first_vertex: i32,
    pub vertex_count: i32,
    pub instance_count: i32,
    pub base_instance: u32,
}

/// The draw of one model: the way to draw it, and the ranges to draw from.
#[derive(Clone, Copy, Debug, PartialEq, Eq, Structural)]
pub struct ModelDraw {
    pub command: RenderFunction,
    pub draw_call: DrawCallInfo,
}

/// What one frame does with the buffers of the scene, in this order: the
/// sun marker is copied, every model is drawn, the four half axes of the
/// grid are drawn, and both instance buffers get a fresh fence.
pub struct FramePlan {
    /// The unsynchronised copy of the two ends of the sun marker to the
    /// start of the vertex buffer.
    pub sun_marker: CopyCommand,
    pub models: Vec<ModelDraw>,
    pub grid: Vec<GridDraw>,
    /// The region of the translations whose fence is replaced.
    pub translations_fence: usize,
    /// The region of the colours whose fence is replaced.
    pub colours_fence: usize,
}

/// The draw of the `k`-th half axis of the grid, where the grid lines are
/// stored from the place `base` on.
pub open spec fn grid_draw(base: nat, k: int) -> GridDraw {
    GridDraw {
        first_vertex: (SUN_ARROW_VERTICES + 2 * k) as i32,
        vertex_count: 2,
        instance_count: GRID_LINES,
        base_instance: (base + k * GRID_LINES) as u32,
    }
}

/// The world grid of a scene.
pub open spec fn scene_grid() -> GridView {
    GridView {
        translations: grid_translations(half_lines(GRID_LINES)),
        colours: grid_colours(half_lines(GRID_LINES)),
        num_lines: GRID_LINES,
    }
}

/// The world grid of a scene has as many lines on each of its four half
/// axes as a dimension has lines.
pub proof fn lemma_scene_grid_lines()
    ensures
        scene_grid().translations.len() == 4 * GRID_LINES,
        scene_grid().colours.len() == 4 * GRID_LINES,
{
}

/// An attribute of `count` floats at `index`.
pub open spec fn float_attribute(index: u32, count: i32) -> AttributeFormat {
    AttributeFormat { index, count, data_type: DataType::Float, normalized: false, relative_offset: 0 }
}

/// The layout of the vertices of a scene: a position of three floats, a
/// texture coordinate of two and a normal of three for every vertex, and a
/// colour and a translation of three floats each for every instance.
pub open spec fn scene_layout() -> VAOView {
    VAOView {
        formats: seq![
            float_attribute(0, 3),
            float_attribute(1, 2),
            float_attribute(2, 3),
            float_attribute(3, 3),
            float_attribute(4, 3),
        ],
        divisors: seq![Divisor { index: 3, divisor: 1 }, Divisor { index: 4, divisor: 1 }],
    }
}

/// The attributes of a scene have the bytes of the elements of the buffers
/// that they are read from.
pub proof fn lemma_scene_layout_strides()
    ensures
        scene_layout().stride(0) == Some(VEC3_BYTES as int),
        scene_layout().stride(1) == Some(VEC2_BYTES as int),
        scene_layout().stride(2) == Some(VEC3_BYTES as int),
        scene_layout().stride(3) == Some(VEC3_BYTES as int),
        scene_layout().stride(4) == Some(VEC3_BYTES as int),
{
    reveal_with_fuel(attribute_bytes, 6);
}

/// The mathematical model of a scene.
pub struct SceneRendererView {
    pub vao: VAOView,
    pub grid: GridView,
    pub models: Seq<RenderInformation>,
    pub model_render_info: Seq<DrawCallInfo>,
    pub base_number_instances: nat,
    pub current_instance_upload_index: nat,
    pub max_number_instances: nat,
    pub vertices: BufferView,
    pub tex_coords: BufferView,
    pub normals: BufferView,
    pub instanced_translations: BufferView,
    pub instanced_colours: BufferView,
    pub indices: BufferView,
}

/// A synchronised write of `count` elements of `size` bytes, `offset`
/// elements into the only region of a buffer of the given kind.
pub open spec fn static_write(
    buffer_type: BufferType,
    offset: int,
    count: int,
    size: int,
) -> WriteCommand {
    WriteCommand {
        timeout: FENCE_TIMEOUT,
        copy: CopyCommand {
            region: 0,
            element_offset: offset as isize,
            element_count: count as usize,
            element_size: size as usize,
        },
        binding: BufferView::initial(0, 1, buffer_type).binding_of(0),
    }
}

/// The writes that store a shape of the given numbers of elements, where
/// the arrays in front of it hold the given numbers of elements already.
pub open spec fn geometry_writes(
    vertices_before: int,
    tex_coords_before: int,
    normals_before: int,
    indices_before: int,
    vertices: int,
    tex_coords: int,
    normals: int,
    indices: int,
) -> GeometryWrites {
    GeometryWrites {
        vertices: static_write(BufferType::Array(0, 12), vertices_before, vertices, 12),
        tex_coords: static_write(BufferType::Array(1, 8), tex_coords_before, tex_coords, 8),
        normals: static_write(BufferType::Array(2, 12), normals_before, normals, 12),
        indices: static_write(BufferType::Indice, indices_before, indices, 4),
        instanced_translations: static_write(
            BufferType::Array(4, 12),
            vertices_before,
            vertices,
            12,
        ),
        instanced_colours: static_write(BufferType::Array(3, 12), vertices_before, vertices, 12),
    }
}

/// The writes that store the grid, right behind the sun marker.
pub open spec fn grid_writes() -> GeometryWrites {
    geometry_writes(2, 2, 2, 0, 8, 8, 8, 0)
}

/// The writes that store the `i`-th model, right behind the models in
/// front of it.
pub open spec fn model_writes(models: Seq<RenderInformation>, i: int) -> GeometryWrites {
    geometry_writes(
        RESERVED_VERTICES + total_before(models, i, GeometryPart::Vertices),
        RESERVED_VERTICES + total_before(models, i, GeometryPart::TexCoords),
        RESERVED_VERTICES + total_before(models, i, GeometryPart::Normals),
        total_before(models, i, GeometryPart::Indices) as int,
        count_of(models[i], GeometryPart::Vertices) as int,
        count_of(models[i], GeometryPart::TexCoords) as int,
        count_of(models[i], GeometryPart::Normals) as int,
        count_of(models[i], GeometryPart::Indices) as int,
    )
}

/// The ranges that the draw call of the `i`-th model reads once the static
/// geometry is stored: its own vertices and indices, and the all-zero
/// instance entries that were stored along with them.
pub open spec fn static_draw_call(models: Seq<RenderInformation>, i: int) -> DrawCallInfo {
    DrawCallInfo {
        vertex_offset: (RESERVED_VERTICES + total_before(models, i, GeometryPart::Vertices)) as i32,
        vertex_count: count_of(models[i], GeometryPart::Vertices) as i32,
        indice_offset: (total_before(models, i, GeometryPart::Indices) * INDEX_BYTES) as isize,
        indice_count: count_of(models[i], GeometryPart::Indices) as i32,
        instance_offset: (RESERVED_VERTICES + total_before(models, i, GeometryPart::Vertices)) as u32,
        instance_count: count_of(models[i], GeometryPart::Vertices) as i32,
    }
}

impl SceneRendererView {
    pub open spec fn wf(self) -> bool {
        &&& self.vertices.wf()
        &&& self.tex_coords.wf()
        &&& self.normals.wf()
        &&& self.instanced_translations.wf()
        &&& self.instanced_colours.wf()
        &&& self.indices.wf()
        &&& self.vertices.size_bytes >= SUN_ARROW_VERTICES * VEC3_BYTES
        &&& self.instanced_translations.size_bytes == self.max_number_instances * VEC3_BYTES
        &&& self.instanced_colours.size_bytes == self.max_number_instances * VEC3_BYTES
        &&& self.model_render_info.len() == self.models.len()
        &&& self.base_number_instances <= self.current_instance_upload_index
            <= self.max_number_instances
        &&& self.max_number_instances <= i32::MAX
        &&& self.max_number_instances * VEC3_BYTES <= isize::MAX
        &&& self.grid == scene_grid()
        &&& self.vao == scene_layout()
        &&& self.vao.reads(self.vertices)
        &&& self.vao.reads(self.tex_coords)
        &&& self.vao.reads(self.normals)
        &&& self.vao.reads(self.instanced_translations)
        &&& self.vao.reads(self.instanced_colours)
        &&& self.vao.reads(self.indices)
    }

    /// Whether the scene has a model of this id.
    pub open spec fn knows(self, model_id: ModelId) -> bool {
        0 <= model_id.index() < self.models.len()
    }

    /// The first free place after the grid lines of a batch.
    pub open spec fn batch_start(self) -> nat {
        self.base_number_instances + clipped(
            self.max_number_instances,
            self.base_number_instances,
            self.grid.translations.len(),
        )
    }

    /// The scene after a batch of instance data: each instance buffer has
    /// rotated once, the first free place lies behind what was stored,
    /// and the draw calls of the models named read what was stored for
    /// them. Everything else is as before.
    pub open spec fn after_batch(self, info: Seq<UploadInformation>) -> SceneRendererView {
        SceneRendererView {
            instanced_colours: self.instanced_colours.after_write(),
            instanced_translations: self.instanced_translations.after_write(),
            current_instance_upload_index: cursor_before(
                self.max_number_instances,
                self.batch_start(),
                info,
                info.len() as int,
            ),
            model_render_info: draw_calls_after(
                self.model_render_info,
                self.max_number_instances,
                self.batch_start(),
                info,
                info.len() as int,
            ),
            ..self
        }
    }

    /// Whether `upload` holds the writes of a batch of instance data on
    /// this scene: the grid lines go behind the static entries with the
    /// one synchronised write of each instance buffer, and every record
    /// goes behind what was stored before it, into the regions that the
    /// buffers rotate to.
    pub open spec fn stores(self, info: Seq<UploadInformation>, upload: InstanceUpload) -> bool {
        &&& upload.grid_requested == self.grid.translations.len()
        &&& upload.grid_uploaded == clipped(
            self.max_number_instances,
            self.base_number_instances,
            self.grid.translations.len(),
        )
        &&& upload.grid_colours == (WriteCommand {
            timeout: FENCE_TIMEOUT,
            copy: instance_copy(
                self.instanced_colours.next_index(),
                self.base_number_instances,
                upload.grid_uploaded as nat,
                upload.grid_uploaded as nat,
            ),
            binding: self.instanced_colours.binding_of(self.instanced_colours.next_index()),
        })
        &&& upload.grid_translations == (WriteCommand {
            timeout: FENCE_TIMEOUT,
            copy: instance_copy(
                self.instanced_translations.next_index(),
                self.base_number_instances,
                upload.grid_uploaded as nat,
                upload.grid_uploaded as nat,
            ),
            binding: self.instanced_translations.binding_of(
                self.instanced_translations.next_index(),
            ),
        })
        &&& upload.models@ == Seq::new(
            info.len(),
            |k: int|
                instance_write(
                    info[k],
                    self.max_number_instances,
                    cursor_before(self.max_number_instances, self.batch_start(), info, k),
                    self.instanced_colours.next_index(),
                    self.instanced_translations.next_index(),
                ),
        )
    }

    /// Whether the writes that store a shape stay inside the buffers of
    /// the scene.
    pub open spec fn holds_geometry(self, writes: GeometryWrites) -> bool {
        &&& self.vertices.holds(writes.vertices.copy)
        &&& self.tex_coords.holds(writes.tex_coords.copy)
        &&& self.normals.holds(writes.normals.copy)
        &&& self.indices.holds(writes.indices.copy)
        &&& self.instanced_translations.holds(writes.instanced_translations.copy)
        &&& self.instanced_colours.holds(writes.instanced_colours.copy)
    }

    /// Whether the writes that store the static geometry stay inside the
    /// buffers of the scene.
    pub open spec fn holds_upload(self, upload: GeometryUpload) -> bool {
        &&& self.holds_geometry(upload.grid)
        &&& forall|i: int|
            0 <= i < upload.models@.len() ==> self.holds_geometry(#[trigger] upload.models@[i])
    }

    /// Whether the writes of a batch of instance data stay inside the
    /// instance buffers of the scene.
    pub open spec fn holds_batch(self, upload: InstanceUpload) -> bool {
        &&& self.instanced_colours.holds(upload.grid_colours.copy)
        &&& self.instanced_translations.holds(upload.grid_translations.copy)
        &&& forall|k: int|
            0 <= k < upload.models@.len() ==> ((#[trigger] upload.models@[k]).colours matches Some(
                copy,
            ) ==> self.instanced_colours.holds(copy)) && (upload.models@[k].translations matches Some(
                copy,
            ) ==> self.instanced_translations.holds(copy))
    }

    /// The scene right after its static geometry was stored.
    pub open spec fn initial(
        models: Seq<RenderInformation>,
        max_number_instances: u32,
    ) -> SceneRendererView {
        let vertices = total_of(models, GeometryPart::Vertices);
        SceneRendererView {
            vao: scene_layout(),
            grid: scene_grid(),
            models,
            model_render_info: Seq::new(models.len(), |i: int| static_draw_call(models, i)),
            base_number_instances: (GRID_VERTICES + vertices) as nat,
            current_instance_upload_index: (GRID_VERTICES + vertices) as nat,
            max_number_instances: max_number_instances as nat,
            vertices: BufferView::initial(
                (RESERVED_VERTICES + vertices) * VEC3_BYTES,
                1,
                BufferType::Array(0, 12),
            ),
            tex_coords: BufferView::initial(
                (RESERVED_VERTICES + total_of(models, GeometryPart::TexCoords)) * VEC2_BYTES,
                1,
                BufferType::Array(1, 8),
            ),
            normals: BufferView::initial(
                (RESERVED_VERTICES + total_of(models, GeometryPart::Normals)) * VEC3_BYTES,
                1,
                BufferType::Array(2, 12),
            ),
            instanced_translations: BufferView::initial(
                max_number_instances * VEC3_BYTES,
                1,
                BufferType::Array(4, 12),
            ),
            instanced_colours: BufferView::initial(
                max_number_instances * VEC3_BYTES,
                1,
                BufferType::Array(3, 12),
            ),
            indices: BufferView::initial(
                total_of(models, GeometryPart::Indices) * INDEX_BYTES,
                1,
                BufferType::Indice,
            ),
        }
    }
}

/// Holds what is needed to draw a scene.
pub struct SceneRenderer {
    vao: VAO,
    grid: Grid,
    vertices: Buffer,
    tex_coords: Buffer,
    normals: Buffer,
    instanced_translations: Buffer,
    instanced_colours: Buffer,
    indices: Buffer,
    base_number_instances: u32,
    current_instance_upload_index: u32,
    max_number_instances: u32,
    models: Vec<RenderInformation>,
    model_render_info: Vec<DrawCallInfo>,
}

impl View for SceneRenderer {
    type V = SceneRendererView;

    closed spec fn view(&self) -> SceneRendererView {
        SceneRendererView {
            vao: self.vao@,
            grid: self.grid@,
            models: self.models@,
            model_render_info: self.model_render_info@,
            base_number_instances: self.base_number_instances as nat,
            current_instance_upload_index: self.current_instance_upload_index as nat,
            max_number_instances: self.max_number_instances as nat,
            vertices: self.vertices@,
            tex_coords: self.tex_coords@,
            normals: self.normals@,
            instanced_translations: self.instanced_translations@,
            instanced_colours: self.instanced_colours@,
            indices: self.indices@,
        }
    }
}

/// Bytes of `elements` elements of `size` bytes each.
fn bytes_of(elements: usize, size: usize) -> (bytes: isize)
    requires
        elements * size <= isize::MAX,
    ensures
        bytes == elements * size,
{
    (elements * size) as isize
}

/// A ring of one region comes back to where it was with every write.
proof fn lemma_single_region_write(size_bytes: int, buffer_type: BufferType)
    ensures
        BufferView::initial(size_bytes, 1, buffer_type).wf(),
        BufferView::initial(size_bytes, 1, buffer_type).after_write() == BufferView::initial(
            size_bytes,
            1,
            buffer_type,
        ),
        BufferView::initial(size_bytes, 1, buffer_type).next_index() == 0,
{
    let b = BufferView::initial(size_bytes, 1, buffer_type);
    assert(b.after_write().fences =~= b.fences);
}

/// Records the write of `count` elements of `size` bytes each, `offset`
/// elements into a buffer of one region.
fn write_static(buffer: &mut Buffer, offset: usize, count: usize, size: usize) -> (command:
    WriteCommand)
    requires
        old(buffer)@ == BufferView::initial(
            old(buffer)@.size_bytes,
            1,
            old(buffer)@.buffer_type,
        ),
        0 < size,
        (offset + count) * size <= old(buffer)@.size_bytes,
    ensures
        final(buffer)@ == old(buffer)@,
        command == static_write(old(buffer)@.buffer_type, offset as int, count as int, size as int),
        old(buffer)@.holds(command.copy),
{
    proof {
        lemma_single_region_write(buffer@.size_bytes, buffer@.buffer_type);
        assert(offset * size <= (offset + count) * size) by (nonlinear_arith)
            requires
                0 <= offset,
                0 <= count,
                0 < size,
        ;
        assert((offset * size) / (size as int) == offset) by (nonlinear_arith)
            requires
                0 < size,
        ;
    }
    let _region_bytes: isize = buffer.size_buffer_bytes();
    let offset_bytes: isize = bytes_of(offset, size);
    buffer.write_data_offset(count, size, FENCE_TIMEOUT, offset_bytes)
}

/// An offset of whole elements, given in bytes, is that many elements.
proof fn lemma_offset_in_elements(elements: int)
    requires
        0 <= elements,
    ensures
        (elements * VEC3_BYTES) / (VEC3_BYTES as int) == elements,
{
}

/// The numbers of elements that a list of models has in each array, where
/// the buffers for them can be addressed.
struct Totals {
    vertices: usize,
    tex_coords: usize,
    normals: usize,
    indices: usize,
}

impl SceneRenderer {
    pub open spec fn wf(&self) -> bool {
        self@.wf()
    }

    /// A scene of the given models with room for `max_number_instances`
    /// instances of all models together, and the writes that store its
    /// static geometry.
    ///
    /// Every buffer of the scene is a ring of one region. The driver has to
    /// create the buffers in the sizes that the scene reports, and then to
    /// carry out the writes.
    pub fn new(models: Vec<RenderInformation>, max_number_instances: u32) -> (made: Result<
        (SceneRenderer, GeometryUpload),
        SceneError,
    >)
        requires
            forall|i: int| 0 <= i < models@.len() ==> (#[trigger] models@[i]).geometry.wf(),
        ensures
            match scene_error(models@, max_number_instances) {
                Some(error) => made == Err::<(SceneRenderer, GeometryUpload), SceneError>(error),
                None => {
                    &&& made is Ok
                    &&& made->Ok_0.0.wf()
                    &&& made->Ok_0.0@ == SceneRendererView::initial(models@, max_number_instances)
                    &&& made->Ok_0.1.grid == grid_writes()
                    &&& made->Ok_0.1.models@ == Seq::new(
                        models@.len(),
                        |i: int| model_writes(models@, i),
                    )
                    &&& made->Ok_0.0@.holds_upload(made->Ok_0.1)
                },
            },
    {
        let totals = match SceneRenderer::count_totals(&models, max_number_instances) {
            Ok(totals) => totals,
            Err(error) => {
                return Err(error);
            },
        };
        let grid = Grid::new(GRID_LINES);
        let mut vao = VAO::new();
        vao.specify_index_layout(0, 3, DataType::Float, false, 0);
        vao.specify_index_layout(1, 2, DataType::Float, false, 0);
        vao.specify_index_layout(2, 3, DataType::Float, false, 0);
        vao.specify_index_layout(3, 3, DataType::Float, false, 0);
        vao.specify_index_layout(4, 3, DataType::Float, false, 0);
        vao.specify_divisor(3, 1);
        vao.specify_divisor(4, 1);
        proof {
            assert(vao@.formats =~= scene_layout().formats);
            assert(vao@.divisors =~= scene_layout().divisors);
        }
        let vertices_buffer_bytes: isize = bytes_of(RESERVED_VERTICES + totals.vertices, VEC3_BYTES);
        let tex_coords_size_bytes: isize = bytes_of(
            RESERVED_VERTICES + totals.tex_coords,
            VEC2_BYTES,
        );
        let normals_buffer_bytes: isize = bytes_of(RESERVED_VERTICES + totals.normals, VEC3_BYTES);
        let indices_buffer_bytes: isize = bytes_of(totals.indices, INDEX_BYTES);
        let size_instance_buffer_bytes: isize = bytes_of(
            max_number_instances as usize,
            VEC3_BYTES,
        );
        let mut buffer_group = SceneRenderer {
            vao,
            grid,
            vertices: Buffer::new(vertices_buffer_bytes, 1, BufferType::Array(0, 12)).0,
            tex_coords: Buffer::new(tex_coords_size_bytes, 1, BufferType::Array(1, 8)).0,
            normals: Buffer::new(normals_buffer_bytes, 1, BufferType::Array(2, 12)).0,
            instanced_translations: Buffer::new(
                size_instance_buffer_bytes,
                1,
                BufferType::Array(4, 12),
            ).0,
            instanced_colours: Buffer::new(
                size_instance_buffer_bytes,
                1,
                BufferType::Array(3, 12),
            ).0,
            indices: Buffer::new(indices_buffer_bytes, 1, BufferType::Indice).0,
            models,
            model_render_info: Vec::new(),
            max_number_instances,
            base_number_instances: 0,
            current_instance_upload_index: 0,
        };
        let upload = buffer_group.upload_model_geometry();
        Ok((buffer_group, upload))
    }

    /// Whether the scene is as it is made, before its static geometry is
    /// stored: every buffer fresh and in its size, no draw call known.
    spec fn fresh(&self) -> bool {
        let initial = SceneRendererView::initial(self.models@, self.max_number_instances);
        &&& scene_error(self.models@, self.max_number_instances) is None
        &&& forall|i: int|
            0 <= i < self.models@.len() ==> (#[trigger] self.models@[i]).geometry.wf()
        &&& self.grid@ == scene_grid()
        &&& self.vao@ == scene_layout()
        &&& self.vertices@ == initial.vertices
        &&& self.tex_coords@ == initial.tex_coords
        &&& self.normals@ == initial.normals
        &&& self.instanced_translations@ == initial.instanced_translations
        &&& self.instanced_colours@ == initial.instanced_colours
        &&& self.indices@ == initial.indices
        &&& self.model_render_info@.len() == 0
        &&& self.base_number_instances == 0
        &&& self.current_instance_upload_index == 0
    }

    /// Stores the static geometry: the grid behind the sun marker, then
    /// every model behind the one before it, and notes for every model
    /// where its data lies.
    ///
    /// Every vertex gets an instance entry of its own, all zero, so that the
    /// per-instance inputs are defined for what is drawn once.
    fn upload_model_geometry(&mut self) -> (upload: GeometryUpload)
        requires
            old(self).fresh(),
        ensures
            final(self).wf(),
            final(self)@ == SceneRendererView::initial(
                old(self)@.models,
                old(self).max_number_instances,
            ),
            upload.grid == grid_writes(),
            upload.models@ == Seq::new(
                old(self)@.models.len(),
                |i: int| model_writes(old(self)@.models, i),
            ),
            final(self)@.holds_upload(upload),
    {
        let ghost models = self.models@;
        let ghost initial = SceneRendererView::initial(self.models@, self.max_number_instances);
        proof {
            lemma_scene_layout_strides();
            lemma_total_before_monotonic(models, 0, models.len() as int, GeometryPart::Vertices);
            lemma_total_before_monotonic(models, 0, models.len() as int, GeometryPart::TexCoords);
            lemma_total_before_monotonic(models, 0, models.len() as int, GeometryPart::Normals);
            lemma_total_before_monotonic(models, 0, models.len() as int, GeometryPart::Indices);
        }
        let grid_vertices: usize = self.grid.num_vertices();
        let grid_upload = GeometryWrites {
            vertices: write_static(
                &mut self.vertices,
                SUN_ARROW_VERTICES,
                grid_vertices,
                VEC3_BYTES,
            ),
            tex_coords: write_static(
                &mut self.tex_coords,
                SUN_ARROW_VERTICES,
                grid_vertices,
                VEC2_BYTES,
            ),
            normals: write_static(&mut self.normals, SUN_ARROW_VERTICES, grid_vertices, VEC3_BYTES),
            indices: write_static(&mut self.indices, 0, 0, INDEX_BYTES),
            instanced_translations: write_static(
                &mut self.instanced_translations,
                SUN_ARROW_VERTICES,
                grid_vertices,
                VEC3_BYTES,
            ),
            instanced_colours: write_static(
                &mut self.instanced_colours,
                SUN_ARROW_VERTICES,
                grid_vertices,
                VEC3_BYTES,
            ),
        };
        let mut vertices_written: usize = RESERVED_VERTICES;
        let mut tex_coords_written: usize = RESERVED_VERTICES;
        let mut normals_written: usize = RESERVED_VERTICES;
        let mut indices_written: usize = 0;
        let mut model_render_info: Vec<DrawCallInfo> = Vec::new();
        let mut model_upload: Vec<GeometryWrites> = Vec::new();
        let mut i: usize = 0;
        while i < self.models.len()
            invariant
                i <= models.len(),
                self.models@ == models,
                self.max_number_instances == old(self).max_number_instances,
                self.grid == old(self).grid,
                self.vao == old(self).vao,
                self.base_number_instances == 0,
                self.current_instance_upload_index == 0,
                initial == SceneRendererView::initial(models, self.max_number_instances),
                scene_error(models, self.max_number_instances) is None,
                forall|j: int| 0 <= j < models.len() ==> (#[trigger] models[j]).geometry.wf(),
                self.vertices@ == initial.vertices,
                self.tex_coords@ == initial.tex_coords,
                self.normals@ == initial.normals,
                self.instanced_translations@ == initial.instanced_translations,
                self.instanced_colours@ == initial.instanced_colours,
                self.indices@ == initial.indices,
                vertices_written == RESERVED_VERTICES + total_before(
                    models,
                    i as int,
                    GeometryPart::Vertices,
                ),
                tex_coords_written == RESERVED_VERTICES + total_before(
                    models,
                    i as int,
                    GeometryPart::TexCoords,
                ),
                normals_written == RESERVED_VERTICES + total_before(
                    models,
                    i as int,
                    GeometryPart::Normals,
                ),
                indices_written == total_before(models, i as int, GeometryPart::Indices),
                model_render_info@ =~= Seq::new(i as nat, |j: int| static_draw_call(models, j)),
                model_upload@ =~= Seq::new(i as nat, |j: int| model_writes(models, j)),
                initial.holds_geometry(grid_upload),
                forall|j: int| 0 <= j < i ==> initial.holds_geometry(#[trigger] model_upload@[j]),
            decreases models.len() - i,
        {
            let geometry: Model = self.models[i].geometry;
            assert(models[i as int].geometry.wf());
            proof {
                lemma_total_before_monotonic(
                    models,
                    i + 1,
                    models.len() as int,
                    GeometryPart::Vertices,
                );
                lemma_total_before_monotonic(
                    models,
                    i + 1,
                    models.len() as int,
                    GeometryPart::TexCoords,
                );
                lemma_total_before_monotonic(
                    models,
                    i + 1,
                    models.len() as int,
                    GeometryPart::Normals,
                );
                lemma_total_before_monotonic(
                    models,
                    i + 1,
                    models.len() as int,
                    GeometryPart::Indices,
                );
            }
            let num_vertices: usize = geometry.num_vertices();
            let num_tex_coords: usize = geometry.num_tex_coords();
            let num_normals: usize = geometry.num_normals();
            let num_indices: usize = geometry.num_indices();
            let writes = GeometryWrites {
                vertices: write_static(
                    &mut self.vertices,
                    vertices_written,
                    num_vertices,
                    VEC3_BYTES,
                ),
                tex_coords: write_static(
                    &mut self.tex_coords,
                    tex_coords_written,
                    num_tex_coords,
                    VEC2_BYTES,
                ),
                normals: write_static(
                    &mut self.normals,
                    normals_written,
                    num_normals,
                    VEC3_BYTES,
                ),
                indices: write_static(&mut self.indices, indices_written, num_indices, INDEX_BYTES),
                instanced_translations: write_static(
                    &mut self.instanced_translations,
                    vertices_written,
                    num_vertices,
                    VEC3_BYTES,
                ),
                instanced_colours: write_static(
                    &mut self.instanced_colours,
                    vertices_written,
                    num_vertices,
                    VEC3_BYTES,
                ),
            };
            let draw_call_info = DrawCallInfo {
                indice_offset: bytes_of(indices_written, INDEX_BYTES),
                indice_count: num_indices as i32,
                instance_offset: vertices_written as u32,
                instance_count: num_vertices as i32,
                vertex_offset: vertices_written as i32,
                vertex_count: num_vertices as i32,
            };
            assert(writes == model_writes(models, i as int));
            assert(draw_call_info == static_draw_call(models, i as int));
            model_render_info.push(draw_call_info);
            model_upload.push(writes);
            vertices_written = vertices_written + num_vertices;
            tex_coords_written = tex_coords_written + num_tex_coords;
            normals_written = normals_written + num_normals;
            indices_written = indices_written + num_indices;
            i = i + 1;
        }
        self.model_render_info = model_render_info;
        self.base_number_instances = (vertices_written - SUN_ARROW_VERTICES) as u32;
        self.current_instance_upload_index = self.base_number_instances;
        proof {
            assert(self@.model_render_info =~= initial.model_render_info);
        }
        GeometryUpload { grid: grid_upload, models: model_upload }
    }

    /// Whether the scene has a model of this id.
    pub open spec fn knows(&self, model_id: ModelId) -> bool {
        self@.knows(model_id)
    }

    /// Stores a batch of instance data behind the static entries: first
    /// the grid lines, then every record in its order. What does not fit
    /// the capacity of the scene is dropped, and the draw call of every
    /// model named is moved to what was stored for it.
    ///
    /// Each instance buffer rotates once for the whole batch, with the
    /// write of the grid lines; every record is copied into the region
    /// that this write waited for.
    pub fn upload_instance_information(&mut self, info: Vec<UploadInformation>) -> (upload:
        InstanceUpload)
        requires
            old(self).wf(),
            forall|k: int|
                0 <= k < info@.len() && (#[trigger] info@[k]).carries_data() ==> old(self).knows(
                    info@[k].model_id,
                ),
        ensures
            final(self).wf(),
            final(self)@ == old(self)@.after_batch(info@),
            old(self)@.stores(info@, upload),
            final(self)@.holds_batch(upload),
    {
        let ghost before = self@;
        let ghost capacity = self@.max_number_instances;
        let ghost start = self@.batch_start();
        let ghost colours_region = self@.instanced_colours.next_index();
        let ghost translations_region = self@.instanced_translations.next_index();
        self.current_instance_upload_index = self.base_number_instances;
        let num_instances: usize = self.grid.get_translations().len();
        let grid_uploaded: u32 = self.clip(num_instances);
        let bytes_offset: isize = bytes_of(self.current_instance_upload_index as usize, VEC3_BYTES);
        proof {
            lemma_offset_in_elements(self.current_instance_upload_index as int);
        }
        let grid_colours = self.instanced_colours.write_data_offset(
            grid_uploaded as usize,
            VEC3_BYTES,
            FENCE_TIMEOUT,
            bytes_offset,
        );
        let grid_translations = self.instanced_translations.write_data_offset(
            grid_uploaded as usize,
            VEC3_BYTES,
            FENCE_TIMEOUT,
            bytes_offset,
        );
        self.current_instance_upload_index = self.current_instance_upload_index + grid_uploaded;
        let models: Vec<InstanceWrite> = store_records(
            self.max_number_instances,
            self.current_instance_upload_index,
            &info,
            self.instanced_colours.current_buffer_index(),
            self.instanced_translations.current_buffer_index(),
        );
        let mut k: usize = 0;
        while k < info.len()
            invariant
                k <= info@.len(),
                before.wf(),
                capacity == before.max_number_instances,
                forall|j: int|
                    0 <= j < info@.len() && (#[trigger] info@[j]).carries_data() ==> 0
                        <= info@[j].model_id.index() < before.models.len(),
                self@ == (SceneRendererView {
                    instanced_colours: before.instanced_colours.after_write(),
                    instanced_translations: before.instanced_translations.after_write(),
                    current_instance_upload_index: cursor_before(capacity, start, info@, k as int),
                    model_render_info: draw_calls_after(
                        before.model_render_info,
                        capacity,
                        start,
                        info@,
                        k as int,
                    ),
                    ..before
                }),
                self.wf(),
                start <= capacity,
                models@ == Seq::new(
                    info@.len(),
                    |j: int|
                        instance_write(
                            info@[j],
                            capacity,
                            cursor_before(capacity, start, info@, j),
                            colours_region,
                            translations_region,
                        ),
                ),
            decreases info@.len() - k,
        {
            let record: UploadInformation = info[k];
            let stored: InstanceWrite = models[k];
            proof {
                lemma_clipped(
                    capacity,
                    cursor_before(capacity, start, info@, k as int),
                    record.requested(),
                );
            }
            if record.instance_translations.is_some() || record.instance_colours.is_some() {
                let index: usize = record.model_id.position();
                let mut draw_call: DrawCallInfo = self.model_render_info[index];
                draw_call.instance_count = stored.uploaded as i32;
                draw_call.instance_offset = stored.instance_offset;
                self.model_render_info.set(index, draw_call);
            }
            self.current_instance_upload_index = stored.instance_offset + stored.uploaded;
            k = k + 1;
        }
        InstanceUpload {
            grid_requested: num_instances,
            grid_uploaded,
            grid_colours,
            grid_translations,
            models,
        }
    }

    /// As many of `requested` instances as there is room for behind the
    /// ones that are stored.
    fn clip(&self, requested: usize) -> (uploaded: u32)
        requires
            self@.current_instance_upload_index <= self@.max_number_instances,
        ensures
            uploaded == clipped(
                self@.max_number_instances,
                self@.current_instance_upload_index,
                requested as nat,
            ),
    {
        clip_instances(self.max_number_instances, self.current_instance_upload_index, requested)
    }

    /// What the next frame does with the buffers of the scene. Both
    /// instance buffers are fenced behind the draws of the frame.
    pub fn render(&mut self) -> (frame: FramePlan)
        requires
            old(self).wf(),
        ensures
            final(self).wf(),
            final(self)@ == (SceneRendererView {
                instanced_translations: old(self)@.instanced_translations.after_fence_update(),
                instanced_colours: old(self)@.instanced_colours.after_fence_update(),
                ..old(self)@
            }),
            frame.sun_marker == (CopyCommand {
                region: old(self)@.vertices.current as usize,
                element_offset: 0,
                element_count: SUN_ARROW_VERTICES,
                element_size: VEC3_BYTES,
            }),
            frame.models@ == Seq::new(
                old(self)@.models.len(),
                |i: int|
                    ModelDraw {
                        command: old(self)@.models[i].command,
                        draw_call: old(self)@.model_render_info[i],
                    },
            ),
            frame.grid@ == Seq::new(4, |k: int| grid_draw(old(self)@.base_number_instances, k)),
            frame.translations_fence == old(self)@.instanced_translations.current,
            frame.colours_fence == old(self)@.instanced_colours.current,
            old(self)@.vertices.holds(frame.sun_marker),
    {
        let sun_marker = self.vertices.write_data_no_wait_no_binding(
            SUN_ARROW_VERTICES,
            VEC3_BYTES,
            0,
        );
        let mut models: Vec<ModelDraw> = Vec::new();
        let mut i: usize = 0;
        while i < self.models.len()
            invariant
                i <= self.models@.len(),
                self.models@.len() == self.model_render_info@.len(),
                models@ =~= Seq::new(
                    i as nat,
                    |j: int|
                        ModelDraw {
                            command: self.models@[j].command,
                            draw_call: self.model_render_info@[j],
                        },
                ),
            decreases self.models@.len() - i,
        {
            models.push(
                ModelDraw { command: self.models[i].command, draw_call: self.model_render_info[i] },
            );
            i = i + 1;
        }
        let mut grid: Vec<GridDraw> = Vec::new();
        let mut instance_offset: u32 = self.base_number_instances;
        let mut k: i32 = 0;
        while k < 4
            invariant
                0 <= k <= 4,
                self.base_number_instances <= i32::MAX,
                instance_offset == self.base_number_instances + k * GRID_LINES,
                grid@ =~= Seq::new(
                    k as nat,
                    |j: int| grid_draw(self.base_number_instances as nat, j),
                ),
            decreases 4 - k,
        {
            grid.push(
                GridDraw {
                    first_vertex: SUN_ARROW_VERTICES as i32 + 2 * k,
                    vertex_count: 2,
                    instance_count: GRID_LINES,
                    base_instance: instance_offset,
                },
            );
            instance_offset = instance_offset + GRID_LINES as u32;
            k = k + 1;
        }
        let translations_fence: usize = self.instanced_translations.update_fence();
        let colours_fence: usize = self.instanced_colours.update_fence();
        FramePlan { sun_marker, models, grid, translations_fence, colours_fence }
    }

    /// The scene of the four models that this program draws, with room for
    /// fifty thousand instances, the writes that store its static geometry
    /// and the writes that store the first point cloud of `initial_points`
    /// points, each a cube with a translation and a colour of its own.
    /// Along with the scene comes the id of the cube.
    pub fn setup_scene_renderer(
        cube: Model,
        sun: Model,
        sun_arrow: Model,
        plane: Model,
        initial_points: usize,
    ) -> (made: Result<(SceneRenderer, ModelId, GeometryUpload, InstanceUpload), SceneError>)
        requires
            cube.wf(),
            sun.wf(),
            sun_arrow.wf(),
            plane.wf(),
        ensures
            match scene_error(scene_models(cube, sun, sun_arrow, plane), MAX_SCENE_INSTANCES) {
                Some(error) => made == Err::<
                    (SceneRenderer, ModelId, GeometryUpload, InstanceUpload),
                    SceneError,
                >(error),
                None => {
                    let models = scene_models(cube, sun, sun_arrow, plane);
                    let cloud = seq![
                        UploadInformation {
                            model_id: made->Ok_0.1,
                            instance_translations: Some(initial_points),
                            instance_colours: Some(initial_points),
                        },
                    ];
                    let stored = SceneRendererView::initial(models, MAX_SCENE_INSTANCES);
                    &&& made is Ok
                    &&& made->Ok_0.0.wf()
                    &&& made->Ok_0.1.index() == 0
                    &&& made->Ok_0.0@ == stored.after_batch(cloud)
                    &&& made->Ok_0.2.grid == grid_writes()
                    &&& made->Ok_0.2.models@ == Seq::new(4, |i: int| model_writes(models, i))
                    &&& stored.stores(cloud, made->Ok_0.3)
                    &&& made->Ok_0.0@.holds_upload(made->Ok_0.2)
                    &&& made->Ok_0.0@.holds_batch(made->Ok_0.3)
                },
            },
    {
        let mut scene_renderer_builder = SceneRendererBuilder::new();
        let cube_model_index = scene_renderer_builder.add_model(
            RenderInformation { geometry: cube, command: RenderFunction::Cube },
        );
        scene_renderer_builder.add_model(
            RenderInformation { geometry: sun, command: RenderFunction::Sun },
        );
        scene_renderer_builder.add_model(
            RenderInformation { geometry: sun_arrow, command: RenderFunction::SunArrow },
        );
        scene_renderer_builder.add_model(
            RenderInformation { geometry: plane, command: RenderFunction::Plane },
        );
        assert(scene_renderer_builder.models@ =~= scene_models(cube, sun, sun_arrow, plane));
        let (mut scene_renderer, geometry) = match scene_renderer_builder.build(
            MAX_SCENE_INSTANCES,
        ) {
            Ok(made) => made,
            Err(error) => {
                return Err(error);
            },
        };
        let mut info: Vec<UploadInformation> = Vec::new();
        info.push(
            UploadInformation {
                model_id: cube_model_index,
                instance_translations: Some(initial_points),
                instance_colours: Some(initial_points),
            },
        );
        proof {
            let stored = scene_renderer@;
            lemma_single_region_write(
                stored.instanced_colours.size_bytes,
                stored.instanced_colours.buffer_type,
            );
            lemma_single_region_write(
                stored.instanced_translations.size_bytes,
                stored.instanced_translations.buffer_type,
            );
            assert(info@ =~= seq![
                UploadInformation {
                    model_id: cube_model_index,
                    instance_translations: Some(initial_points),
                    instance_colours: Some(initial_points),
                },
            ]);
        }
        let instances = scene_renderer.upload_instance_information(info);
        proof {
            assert(instances.models@ =~= seq![instances.models@[0]]);
        }
        Ok((scene_renderer, cube_model_index, geometry, instances))
    }

    /// The ring of the vertices.
    pub fn vertices(&self) -> (buffer: &Buffer)
        ensures
            buffer@ == self@.vertices,
    {
        &self.vertices
    }

    /// The ring of the texture coordinates.
    pub fn tex_coords(&self) -> (buffer: &Buffer)
        ensures
            buffer@ == self@.tex_coords,
    {
        &self.tex_coords
    }

    /// The ring of the normals.
    pub fn normals(&self) -> (buffer: &Buffer)
        ensures
            buffer@ == self@.normals,
    {
        &self.normals
    }

    /// The ring of the translations of the instances.
    pub fn instanced_translations(&self) -> (buffer: &Buffer)
        ensures
            buffer@ == self@.instanced_translations,
    {
        &self.instanced_translations
    }

    /// The ring of the colours of the instances.
    pub fn instanced_colours(&self) -> (buffer: &Buffer)
        ensures
            buffer@ == self@.instanced_colours,
    {
        &self.instanced_colours
    }

    /// The ring of the indices.
    pub fn indices(&self) -> (buffer: &Buffer)
        ensures
            buffer@ == self@.indices,
    {
        &self.indices
    }

    /// The layout of the vertices of the scene.
    pub fn vao(&self) -> (vao: &VAO)
        ensures
            vao@ == self@.vao,
    {
        &self.vao
    }

    /// The world grid of the scene.
    pub fn grid(&self) -> (grid: &Grid)
        ensures
            grid@ == self@.grid,
    {
        &self.grid
    }

    /// The ranges that the draw call of a model reads, where the scene has
    /// the model.
    pub fn draw_call(&self, model_id: ModelId) -> (info: Option<DrawCallInfo>)
        requires
            self.wf(),
        ensures
            info == if self.knows(model_id) {
                Some(self@.model_render_info[model_id.index()])
            } else {
                None
            },
    {
        if model_id.id < self.model_render_info.len() {
            Some(self.model_render_info[model_id.id])
        } else {
            None
        }
    }

    /// Number of places in the instance buffers that the static geometry
    /// takes up.
    pub fn base_number_instances(&self) -> (instances: u32)
        ensures
            instances == self@.base_number_instances,
    {
        self.base_number_instances
    }

    /// The first free place in the instance buffers.
    pub fn current_instance_upload_index(&self) -> (index: u32)
        ensures
            index == self@.current_instance_upload_index,
    {
        self.current_instance_upload_index
    }

    /// Number of places in the instance buffers.
    pub fn max_number_instances(&self) -> (instances: u32)
        ensures
            instances == self@.max_number_instances,
    {
        self.max_number_instances
    }

    /// Adds up the arrays of the models.
    fn count_totals(models: &Vec<RenderInformation>, max_number_instances: u32) -> (totals: Result<
        Totals,
        SceneError,
    >)
        requires
            forall|i: int| 0 <= i < models@.len() ==> (#[trigger] models@[i]).geometry.wf(),
        ensures
            match scene_error(models@, max_number_instances) {
                Some(error) => totals == Err::<Totals, SceneError>(error),
                None => totals is Ok && totals->Ok_0.vertices == total_of(
                    models@,
                    GeometryPart::Vertices,
                ) && totals->Ok_0.tex_coords == total_of(models@, GeometryPart::TexCoords)
                    && totals->Ok_0.normals == total_of(models@, GeometryPart::Normals)
                    && totals->Ok_0.indices == total_of(models@, GeometryPart::Indices),
            },
    {
        let limit: usize = isize::MAX as usize;
        if max_number_instances > i32::MAX as u32 || max_number_instances as usize > limit
            / VEC3_BYTES {
            return Err(SceneError::TooLarge);
        }
        let capacity: usize = max_number_instances as usize;
        let mut vertices: usize = 0;
        let mut vertices_fit: bool = capacity >= RESERVED_VERTICES;
        let mut tex_coords: usize = 0;
        let mut normals: usize = 0;
        let mut indices: usize = 0;
        let mut i: usize = 0;
        while i < models.len()
            invariant
                i <= models@.len(),
                limit == isize::MAX,
                capacity == max_number_instances,
                capacity <= i32::MAX,
                capacity * VEC3_BYTES <= isize::MAX,
                forall|j: int| 0 <= j < models@.len() ==> (#[trigger] models@[j]).geometry.wf(),
                vertices_fit ==> vertices == total_before(
                    models@,
                    i as int,
                    GeometryPart::Vertices,
                ) && RESERVED_VERTICES + vertices <= capacity,
                !vertices_fit ==> RESERVED_VERTICES + total_before(
                    models@,
                    i as int,
                    GeometryPart::Vertices,
                ) > capacity,
                tex_coords == total_before(models@, i as int, GeometryPart::TexCoords),
                (RESERVED_VERTICES + tex_coords) * VEC2_BYTES <= isize::MAX,
                normals == total_before(models@, i as int, GeometryPart::Normals),
                (RESERVED_VERTICES + normals) * VEC3_BYTES <= isize::MAX,
                indices == total_before(models@, i as int, GeometryPart::Indices),
                indices <= i32::MAX,
                indices * INDEX_BYTES <= isize::MAX,
            decreases models@.len() - i,
        {
            let geometry: &Model = &models[i].geometry;
            assert(models@[i as int].geometry.wf());
            proof {
                lemma_total_before_monotonic(
                    models@,
                    i + 1,
                    models@.len() as int,
                    GeometryPart::Vertices,
                );
                lemma_total_before_monotonic(
                    models@,
                    i + 1,
                    models@.len() as int,
                    GeometryPart::TexCoords,
                );
                lemma_total_before_monotonic(
                    models@,
                    i + 1,
                    models@.len() as int,
                    GeometryPart::Normals,
                );
                lemma_total_before_monotonic(
                    models@,
                    i + 1,
                    models@.len() as int,
                    GeometryPart::Indices,
                );
            }
            let more_tex_coords: usize = geometry.num_tex_coords();
            if more_tex_coords > limit / VEC2_BYTES - RESERVED_VERTICES - tex_coords {
                return Err(SceneError::TooLarge);
            }
            tex_coords = tex_coords + more_tex_coords;
            let more_normals: usize = geometry.num_normals();
            if more_normals > limit / VEC3_BYTES - RESERVED_VERTICES - normals {
                return Err(SceneError::TooLarge);
            }
            normals = normals + more_normals;
            let more_indices: usize = geometry.num_indices();
            if more_indices > i32::MAX as usize - indices || more_indices > limit / INDEX_BYTES
                - indices {
                return Err(SceneError::TooLarge);
            }
            indices = indices + more_indices;
            if vertices_fit {
                let more_vertices: usize = geometry.num_vertices();
                if more_vertices > capacity - RESERVED_VERTICES - vertices {
                    vertices_fit = false;
                } else {
                    vertices = vertices + more_vertices;
                }
            }
            i = i + 1;
        }
        if !vertices_fit || RESERVED_VERTICES + vertices > capacity {
            return Err(SceneError::CapacityTooSmall);
        }
        Ok(Totals { vertices, tex_coords, normals, indices })
    }
}

/// The shaders that draw the scene: one for its vertices and one for its
/// fragments, by the names of their files.
pub fn create_shader_program() -> (program: ShaderProgram)
    ensures
        program.wf(),
        program@.len() == 2,
        program@[0].shader_type == ShaderType::Vertex,
        program@[0].shader_location@ == "sceneVertexShader.glsl"@,
        program@[1].shader_type == ShaderType::Fragment,
        program@[1].shader_location@ == "sceneFragmentShader.glsl"@,
{
    let mut shaders: Vec<ShaderInitInfo> = Vec::new();
    shaders.push(
        ShaderInitInfo {
            shader_type: ShaderType::Vertex,
            shader_location: String::from_str("sceneVertexShader.glsl"),
        },
    );
    shaders.push(
        ShaderInitInfo {
            shader_type: ShaderType::Fragment,
            shader_location: String::from_str("sceneFragmentShader.glsl"),
        },
    );
    proof {
        reveal_with_fuel(count_shaders, 3);
        assert(shader_error(shaders@) is None);
    }
    ShaderProgram::new(shaders).unwrap()
}

/// Room for instances in the scene that this program draws.
pub const MAX_SCENE_INSTANCES: u32 = 50_000;

/// The models of the scene that this program draws, in the order in which
/// they are drawn.
pub open spec fn scene_models(cube: Model, sun: Model, sun_arrow: Model, plane: Model) -> Seq<
    RenderInformation,
> {
    seq![
        RenderInformation { geometry: cube, command: RenderFunction::Cube },
        RenderInformation { geometry: sun, command: RenderFunction::Sun },
        RenderInformation { geometry: sun_arrow, command: RenderFunction::SunArrow },
        RenderInformation { geometry: plane, command: RenderFunction::Plane },
    ]
}

/// Collects the models of a scene and hands out their ids.
pub struct SceneRendererBuilder {
    models: Vec<RenderInformation>,
}

impl View for SceneRendererBuilder {
    type V = Seq<RenderInformation>;

    closed spec fn view(&self) -> Seq<RenderInformation> {
        self.models@
    }
}

impl SceneRendererBuilder {
    /// A builder without models.
    pub fn new() -> (builder: SceneRendererBuilder)
        ensures
            builder@ == Seq::<RenderInformation>::empty(),
    {
        SceneRendererBuilder { models: Vec::new() }
    }

    /// Adds a model behind the ones added before, and hands back its id.
    pub fn add_model(&mut self, model: RenderInformation) -> (model_id: ModelId)
        ensures
            final(self)@ == old(self)@.push(model),
            model_id.index() == old(self)@.len(),
    {
        self.models.push(model);
        ModelId { id: self.models.len() - 1 }
    }

    /// The scene of the models added, with room for `max_number_instances`
    /// instances.
    pub fn build(self, max_number_instances: u32) -> (made: Result<
        (SceneRenderer, GeometryUpload),
        SceneError,
    >)
        requires
            forall|i: int| 0 <= i < self@.len() ==> (#[trigger] self@[i]).geometry.wf(),
        ensures
            match scene_error(self@, max_number_instances) {
                Some(error) => made == Err::<(SceneRenderer, GeometryUpload), SceneError>(error),
                None => {
                    &&& made is Ok
                    &&& made->Ok_0.0.wf()
                    &&& made->Ok_0.0@ == SceneRendererView::initial(self@, max_number_instances)
                    &&& made->Ok_0.1.grid == grid_writes()
                    &&& made->Ok_0.1.models@ == Seq::new(self@.len(), |i: int| model_writes(self@, i))
                    &&& made->Ok_0.0@.holds_upload(made->Ok_0.1)
                },
            },
    {
        SceneRenderer::new(self.models, max_number_instances)
    }
}

/// Clipping: what is stored of a request is the request itself or, where
/// that is more than the room left, the room left; never more than either.
pub proof fn lemma_clipped(capacity: nat, cursor: nat, requested: nat)
    requires
        cursor <= capacity,
    ensures
        clipped(capacity, cursor, requested) <= requested,
        cursor + clipped(capacity, cursor, requested) <= capacity,
        clipped(capacity, cursor, requested) == requested || clipped(capacity, cursor, requested)
            == capacity - cursor,
        clipped(capacity, cursor, requested) < requested <==> cursor + requested > capacity,
{
}

/// No write of a batch leaves the instance buffers: every record is stored
/// where the one before it ended, and what is copied for it ends within
/// the capacity.
pub proof fn lemma_batch_in_bounds(
    capacity: nat,
    start: nat,
    info: Seq<UploadInformation>,
    k: int,
    colours_region: int,
    translations_region: int,
)
    requires
        start <= capacity,
        0 <= k < info.len(),
    ensures
        start <= cursor_before(capacity, start, info, k) <= capacity,
        cursor_before(capacity, start, info, k + 1) == cursor_before(capacity, start, info, k)
            + clipped(capacity, cursor_before(capacity, start, info, k), info[k].requested()),
        ({
            let write = instance_write(
                info[k],
                capacity,
                cursor_before(capacity, start, info, k),
                colours_region,
                translations_region,
            );
            &&& write.colours is Some ==> write.colours->0.element_offset
                + write.colours->0.element_count <= capacity
            &&& write.translations is Some ==> write.translations->0.element_offset
                + write.translations->0.element_count <= capacity
        }),
{
    let cursor = cursor_before(capacity, start, info, k);
    assert(requested_before(info, k + 1) == requested_before(info, k) + info[k].requested());
    lemma_clipped(capacity, cursor, info[k].requested());
}

/// A batch moves instances only: it keeps the number of draw calls and the
/// vertices and indices of every model, and it keeps the whole draw call
/// of every model that none of its records with data names.
pub proof fn lemma_draw_calls_after(
    calls: Seq<DrawCallInfo>,
    capacity: nat,
    start: nat,
    info: Seq<UploadInformation>,
    k: int,
)
    requires
        0 <= k <= info.len(),
        forall|j: int|
            0 <= j < k && (#[trigger] info[j]).carries_data() ==> 0 <= info[j].model_id.index()
                < calls.len(),
    ensures
        draw_calls_after(calls, capacity, start, info, k).len() == calls.len(),
        forall|m: int|
            0 <= m < calls.len() ==> {
                let after = #[trigger] draw_calls_after(calls, capacity, start, info, k)[m];
                &&& after.vertex_offset == calls[m].vertex_offset
                &&& after.vertex_count == calls[m].vertex_count
                &&& after.indice_offset == calls[m].indice_offset
                &&& after.indice_count == calls[m].indice_count
            },
        forall|m: int|
            0 <= m < calls.len() && (forall|j: int|
                0 <= j < k && (#[trigger] info[j]).carries_data() ==> info[j].model_id.index() != m)
                ==> #[trigger] draw_calls_after(calls, capacity, start, info, k)[m] == calls[m],
    decreases k,
{
    if k > 0 {
        lemma_draw_calls_after(calls, capacity, start, info, k - 1);
    }
}

/// One rotation for a whole batch: however many records a batch holds, it
/// rotates each instance buffer exactly once, to the region after the
/// current one, and every copy of the batch goes into that region.
pub proof fn lemma_batch_rotates_once(
    scene: SceneRendererView,
    info: Seq<UploadInformation>,
    upload: InstanceUpload,
)
    requires
        scene.wf(),
        scene.stores(info, upload),
    ensures
        scene.after_batch(info).instanced_colours.current
            == scene.instanced_colours.after_writes(1).current,
        scene.after_batch(info).instanced_translations.current
            == scene.instanced_translations.after_writes(1).current,
        upload.grid_colours.copy.region == scene.after_batch(info).instanced_colours.current,
        upload.grid_translations.copy.region == scene.after_batch(
            info,
        ).instanced_translations.current,
        forall|k: int|
            0 <= k < info.len() && (#[trigger] upload.models@[k]).colours is Some
                ==> upload.models@[k].colours->0.region == scene.after_batch(
                info,
            ).instanced_colours.current,
        forall|k: int|
            0 <= k < info.len() && (#[trigger] upload.models@[k]).translations is Some
                ==> upload.models@[k].translations->0.region == scene.after_batch(
                info,
            ).instanced_translations.current,
{
    reveal_with_fuel(BufferView::after_writes, 2);
}

/// The static geometry does not overlap: in each array, every model lies
/// behind the sun marker and the grid and ends where the next model
/// begins, and the last model ends where the array ends.
pub proof fn lemma_static_layout(models: Seq<RenderInformation>, i: int, part: GeometryPart)
    requires
        0 <= i < models.len(),
    ensures
        total_before(models, i, part) + count_of(models[i], part) == total_before(
            models,
            i + 1,
            part,
        ),
        total_before(models, i + 1, part) <= total_of(models, part),
        forall|j: int|
            i < j < models.len() ==> total_before(models, i, part) + count_of(models[i], part)
                <= #[trigger] total_before(models, j, part),
{
    lemma_total_before_monotonic(models, i + 1, models.len() as int, part);
    assert forall|j: int| i < j < models.len() implies total_before(models, i, part) + count_of(
        models[i],
        part,
    ) <= #[trigger] total_before(models, j, part) by {
        lemma_total_before_monotonic(models, i + 1, j, part);
    }
}

} // verus!
