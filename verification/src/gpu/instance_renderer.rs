//! Instanced cubes: the mesh, the per-instance records and the pass.

use vstd::prelude::*;
use crate::gpu::bytes::{mat4_words, push_mat4, push_vec3, push_vec4, GpuData};
use crate::gpu::camera::{camera_uniform, Camera, CameraUniform, CAMERA_UNIFORM_SIZE};
use crate::gpu::command::{
    scene_ready,
    ColorAttachment,
    ColorTarget,
    Command,
    CommandEncoder,
    DepthAttachment,
    DepthTarget,
    DrawCall,
    LoadOp,
    Mesh,
    Pass,
    Pipeline,
    RenderPassDescriptor,
};
use crate::gpu::descriptor::{
    index_buffer,
    make_index_buffer,
    make_storage_buffer,
    make_uniform_buffer,
    make_vertex_buffer,
    shadow_bind_group_layout,
    shadow_bindings,
    storage_buffer,
    uniform_buffer,
    vertex_buffer,
    BindGroupLayoutEntry,
    BindingType,
    BufferDescriptor,
    RenderPipelineDescriptor,
    ShaderStages,
};
use crate::gpu::pipelines::{describe_pipeline, pipeline_descriptor, INDEX_STRIDE, VERTEX_STRIDE};
use crate::scalar::{negate, negated, Mat4, Vec3, Vec4, NEG_ONE, ONE, ZERO};

verus! {

/// A mesh vertex: position, then normal.
#[derive(Clone, Copy, Debug, PartialEq, Eq)]
pub struct Vertex {
    pub position: Vec3,
    pub normal: Vec3,
}

impl GpuData for Vertex {
    open spec fn word_count() -> nat {
        6
    }

    open spec fn words(&self) -> Seq<u32> {
        self.position@ + self.normal@
    }

    proof fn lemma_word_count(&self) {
    }

    fn write_words(&self, out: &mut Vec<u32>) {
        push_vec3(out, &self.position);
        push_vec3(out, &self.normal);
        assert(out@ =~= old(out)@ + self.words());
    }
}

/// One cube of a frame: where it is, how it is turned, and its colour. The
/// two padding words keep each part on a 16-byte boundary.
#[derive(Clone, Copy, Debug, PartialEq, Eq)]
pub struct InstanceData {
    pub position: Vec3,
    pub _padding: u32,
    /// Orientation as a quaternion `(x, y, z, w)`.
    pub rotation: Vec4,
    pub color: Vec3,
    pub _padding2: u32,
}

impl GpuData for InstanceData {
    open spec fn word_count() -> nat {
        12
    }

    open spec fn words(&self) -> Seq<u32> {
        self.position@ + seq![self._padding] + self.rotation@ + self.color@ + seq![self._padding2]
    }

    proof fn lemma_word_count(&self) {
    }

    fn write_words(&self, out: &mut Vec<u32>) {
        push_vec3(out, &self.position);
        out.push(self._padding);
        push_vec4(out, &self.rotation);
        push_vec3(out, &self.color);
        out.push(self._padding2);
        assert(out@ =~= old(out)@ + self.words());
    }
}

/// The light's view-projection matrix, as the shaded passes read it.
#[derive(Clone, Copy, Debug, PartialEq, Eq)]
pub struct ShadowUniform {
    pub light_view_proj: Mat4,
}

impl GpuData for ShadowUniform {
    open spec fn word_count() -> nat {
        16
    }

    open spec fn words(&self) -> Seq<u32> {
        mat4_words(self.light_view_proj)
    }

    proof fn lemma_word_count(&self) {
    }

    fn write_words(&self, out: &mut Vec<u32>) {
        push_mat4(out, &self.light_view_proj);
    }
}

/// Bytes of one instance record.
pub const INSTANCE_STRIDE: u64 = 48;

/// Bytes of a uniform block that holds one matrix.
pub const MATRIX_UNIFORM_SIZE: u64 = 64;

/// Vertices of the cube mesh: four to a face, shared with no other face, so
/// that each face is shaded flat.
pub const CUBE_VERTEX_COUNT: u32 = 24;

/// Indices of the cube mesh: two triangles to a face.
pub const CUBE_INDEX_COUNT: u32 = 36;

/// A vector with integer components.
pub type Int3 = (int, int, int);

/// The outward unit normal of face `f` of the cube. The faces come in the
/// order front (+z), back (-z), right (+x), left (-x), top (+y), bottom (-y).
pub open spec fn face_normal(f: int) -> Int3 {
    if f == 0 {
        (0, 0, 1)
    } else if f == 1 {
        (0, 0, -1)
    } else if f == 2 {
        (1, 0, 0)
    } else if f == 3 {
        (-1, 0, 0)
    } else if f == 4 {
        (0, 1, 0)
    } else {
        (0, -1, 0)
    }
}

/// The direction in which the corners of face `f` run first.
pub open spec fn face_tangent(f: int) -> Int3 {
    if f == 0 {
        (1, 0, 0)
    } else if f == 1 {
        (-1, 0, 0)
    } else if f == 2 {
        (0, 0, -1)
    } else if f == 3 {
        (0, 0, 1)
    } else if f == 4 {
        (1, 0, 0)
    } else {
        (1, 0, 0)
    }
}

/// The direction in which the corners of face `f` run second.
pub open spec fn face_bitangent(f: int) -> Int3 {
    if f == 0 {
        (0, 1, 0)
    } else if f == 1 {
        (0, 1, 0)
    } else if f == 2 {
        (0, 1, 0)
    } else if f == 3 {
        (0, 1, 0)
    } else if f == 4 {
        (0, 0, -1)
    } else {
        (0, 0, 1)
    }
}

/// The vector `v`, or its opposite.
pub open spec fn directed(forward: bool, v: Int3) -> Int3 {
    if forward {
        v
    } else {
        (-v.0, -v.1, -v.2)
    }
}

/// The sum `a + b`.
pub open spec fn plus(a: Int3, b: Int3) -> Int3 {
    (a.0 + b.0, a.1 + b.1, a.2 + b.2)
}

/// The corner `k` of face `f`, in units of the half-extent: the face's normal,
/// plus or minus its tangent, plus or minus its bitangent. The corners run
/// `(-,-)`, `(+,-)`, `(+,+)`, `(-,+)`.
pub open spec fn corner(f: int, k: int) -> Int3 {
    plus(
        plus(face_normal(f), directed(k == 1 || k == 2, face_tangent(f))),
        directed(k == 2 || k == 3, face_bitangent(f)),
    )
}

/// The cross product.
pub open spec fn cross(a: Int3, b: Int3) -> Int3 {
    (a.1 * b.2 - a.2 * b.1, a.2 * b.0 - a.0 * b.2, a.0 * b.1 - a.1 * b.0)
}

/// The difference `a - b`.
pub open spec fn minus(a: Int3, b: Int3) -> Int3 {
    (a.0 - b.0, a.1 - b.1, a.2 - b.2)
}

/// The corner of a face that position `t` of its six indices names: the
/// triangles are corners 0, 1, 2 and corners 0, 2, 3.
pub open spec fn triangle_corner(t: int) -> int {
    if t == 0 {
        0
    } else if t == 1 {
        1
    } else if t == 2 {
        2
    } else if t == 3 {
        0
    } else if t == 4 {
        2
    } else {
        3
    }
}

/// The coordinate `sign * h`, for a sign of plus or minus one.
pub open spec fn coordinate(h: u32, sign: int) -> u32 {
    if sign > 0 {
        h
    } else {
        negated(h)
    }
}

/// The number -1, 0 or 1 as a single-precision bit pattern.
pub open spec fn unit(c: int) -> u32 {
    if c > 0 {
        ONE
    } else if c < 0 {
        NEG_ONE
    } else {
        ZERO
    }
}

/// The vertex with the given position and normal.
pub open spec fn vertex_of(px: u32, py: u32, pz: u32, nx: u32, ny: u32, nz: u32) -> Vertex {
    Vertex { position: [px, py, pz], normal: [nx, ny, nz] }
}

/// Vertex `k` of face `f` of the cube with half-extent `h`.
pub open spec fn cube_vertex(h: u32, f: int, k: int) -> Vertex {
    let c = corner(f, k);
    let n = face_normal(f);
    vertex_of(
        coordinate(h, c.0),
        coordinate(h, c.1),
        coordinate(h, c.2),
        unit(n.0),
        unit(n.1),
        unit(n.2),
    )
}

/// The vertices of the cube with half-extent `h`, face after face.
pub open spec fn cube_vertices(h: u32) -> Seq<Vertex> {
    Seq::new(CUBE_VERTEX_COUNT as nat, |i: int| cube_vertex(h, i / 4, i % 4))
}

/// The indices of the cube, six to a face.
pub open spec fn cube_indices() -> Seq<u16> {
    Seq::new(CUBE_INDEX_COUNT as nat, |i: int| (4 * (i / 6) + triangle_corner(i % 6)) as u16)
}

/// Every index of the cube names one of its vertices: the corner of its
/// face that its place in the triangle list calls for.
pub proof fn lemma_cube_indices_in_range(i: int)
    requires
        0 <= i < CUBE_INDEX_COUNT,
    ensures
        cube_indices()[i] < CUBE_VERTEX_COUNT,
        cube_indices()[i] / 4 == i / 6,
        cube_indices()[i] % 4 == triangle_corner(i % 6),
{
}

/// Every triangle of the cube winds counter-clockwise seen from outside. The
/// three indices of triangle `t` name corners of one face, and the cross
/// product of the two edges that leave the first corner points along that
/// face's outward normal.
pub proof fn lemma_cube_winds_outward(t: int)
    by (nonlinear_arith)
    requires
        0 <= t < 12,
    ensures
        ({
            let i0 = cube_indices()[3 * t] as int;
            let i1 = cube_indices()[3 * t + 1] as int;
            let i2 = cube_indices()[3 * t + 2] as int;
            let face = i0 / 4;
            let a = corner(face, i0 % 4);
            let b = corner(face, i1 % 4);
            let c = corner(face, i2 % 4);
            let n = face_normal(face);
            &&& i1 / 4 == face
            &&& i2 / 4 == face
            &&& cross(minus(b, a), minus(c, a)) == (4 * n.0, 4 * n.1, 4 * n.2)
        }),
{
    lemma_cube_indices_in_range(3 * t);
    lemma_cube_indices_in_range(3 * t + 1);
    lemma_cube_indices_in_range(3 * t + 2);
}

/// The cube has six different normals, one for each face: two vertices have
/// the same normal exactly if they belong to the same face.
pub proof fn lemma_cube_normals(h: u32, i: int, j: int)
    requires
        0 <= i < CUBE_VERTEX_COUNT,
        0 <= j < CUBE_VERTEX_COUNT,
    ensures
        cube_vertices(h)[i].normal == cube_vertices(h)[j].normal <==> i / 4 == j / 4,
{
    let a = cube_vertices(h)[i].normal;
    let b = cube_vertices(h)[j].normal;
    if i / 4 != j / 4 {
        assert(a@[0] != b@[0] || a@[1] != b@[1] || a@[2] != b@[2]);
    }
}

/// Every corner of a face lies one half-extent out along that face's normal
/// and one half-extent to either side along the other two axes.
pub proof fn lemma_cube_corners(f: int, k: int)
    requires
        0 <= f < 6,
        0 <= k < 4,
    ensures
        ({
            let c = corner(f, k);
            let n = face_normal(f);
            &&& n.0 != 0 ==> c.0 == n.0
            &&& n.1 != 0 ==> c.1 == n.1
            &&& n.2 != 0 ==> c.2 == n.2
            &&& c.0 == 1 || c.0 == -1
            &&& c.1 == 1 || c.1 == -1
            &&& c.2 == 1 || c.2 == -1
        }),
{
}

fn make_vertex(px: u32, py: u32, pz: u32, nx: u32, ny: u32, nz: u32) -> (v: Vertex)
    ensures
        v == vertex_of(px, py, pz, nx, ny, nz),
{
    let v = Vertex { position: [px, py, pz], normal: [nx, ny, nz] };
    assert(v.position =~= vertex_of(px, py, pz, nx, ny, nz).position);
    assert(v.normal =~= vertex_of(px, py, pz, nx, ny, nz).normal);
    v
}

/// The cube mesh with half-extent `half_extent`: 24 vertices, four to a face
/// with the face's normal, and 36 indices, two triangles to a face, wound
/// counter-clockwise seen from outside.
pub fn create_cube_geometry(half_extent: u32) -> (mesh: (Vec<Vertex>, Vec<u16>))
    ensures
        mesh.0@ == cube_vertices(half_extent),
        mesh.1@ == cube_indices(),
        mesh.0@.len() == CUBE_VERTEX_COUNT,
        mesh.1@.len() == CUBE_INDEX_COUNT,
{
    let h: u32 = half_extent;
    let m: u32 = negate(half_extent);
    let mut vertices: Vec<Vertex> = Vec::with_capacity(24);
    let mut indices: Vec<u16> = Vec::with_capacity(36);

    // Front face, +z.
    vertices.push(make_vertex(m, m, h, ZERO, ZERO, ONE));
    vertices.push(make_vertex(h, m, h, ZERO, ZERO, ONE));
    vertices.push(make_vertex(h, h, h, ZERO, ZERO, ONE));
    vertices.push(make_vertex(m, h, h, ZERO, ZERO, ONE));

    // Back face, -z.
    vertices.push(make_vertex(h, m, m, ZERO, ZERO, NEG_ONE));
    vertices.push(make_vertex(m, m, m, ZERO, ZERO, NEG_ONE));
    vertices.push(make_vertex(m, h, m, ZERO, ZERO, NEG_ONE));
    vertices.push(make_vertex(h, h, m, ZERO, ZERO, NEG_ONE));

    // Right face, +x.
    vertices.push(make_vertex(h, m, h, ONE, ZERO, ZERO));
    vertices.push(make_vertex(h, m, m, ONE, ZERO, ZERO));
    vertices.push(make_vertex(h, h, m, ONE, ZERO, ZERO));
    vertices.push(make_vertex(h, h, h, ONE, ZERO, ZERO));

    // Left face, -x.
    vertices.push(make_vertex(m, m, m, NEG_ONE, ZERO, ZERO));
    vertices.push(make_vertex(m, m, h, NEG_ONE, ZERO, ZERO));
    vertices.push(make_vertex(m, h, h, NEG_ONE, ZERO, ZERO));
    vertices.push(make_vertex(m, h, m, NEG_ONE, ZERO, ZERO));

    // Top face, +y.
    vertices.push(make_vertex(m, h, h, ZERO, ONE, ZERO));
    vertices.push(make_vertex(h, h, h, ZERO, ONE, ZERO));
    vertices.push(make_vertex(h, h, m, ZERO, ONE, ZERO));
    vertices.push(make_vertex(m, h, m, ZERO, ONE, ZERO));

    // Bottom face, -y.
    vertices.push(make_vertex(m, m, m, ZERO, NEG_ONE, ZERO));
    vertices.push(make_vertex(h, m, m, ZERO, NEG_ONE, ZERO));
    vertices.push(make_vertex(h, m, h, ZERO, NEG_ONE, ZERO));
    vertices.push(make_vertex(m, m, h, ZERO, NEG_ONE, ZERO));

    assert(vertices@ =~= cube_vertices(half_extent));

    let mut face: u16 = 0;
    while face < 6
        invariant
            face <= 6,
            indices@.len() == 6 * face,
            forall|i: int| 0 <= i < 6 * face ==> indices@[i] == cube_indices()[i],
        decreases 6 - face,
    {
        let base: u16 = face * 4;
        indices.push(base);
        indices.push(base + 1);
        indices.push(base + 2);
        indices.push(base);
        indices.push(base + 2);
        indices.push(base + 3);
        face = face + 1;
    }
    assert(indices@ =~= cube_indices());
    (vertices, indices)
}

/// The record of cube `i` of a frame.
pub open spec fn instance_record(
    positions: Seq<Vec3>,
    rotations: Seq<Vec4>,
    colors: Seq<Vec3>,
    i: int,
) -> InstanceData {
    InstanceData {
        position: positions[i],
        _padding: ZERO,
        rotation: rotations[i],
        color: colors[i],
        _padding2: ZERO,
    }
}

/// How many instances of `count` a buffer for `capacity` takes: those beyond
/// its capacity are dropped.
pub open spec fn uploaded(count: int, capacity: int) -> int {
    if count <= capacity {
        count
    } else {
        capacity
    }
}

/// The records that go to the GPU for the given cubes, in order.
pub open spec fn instance_records(
    positions: Seq<Vec3>,
    rotations: Seq<Vec4>,
    colors: Seq<Vec3>,
    capacity: u32,
) -> Seq<InstanceData> {
    Seq::new(
        uploaded(positions.len() as int, capacity as int) as nat,
        |i: int| instance_record(positions, rotations, colors, i),
    )
}

/// Lays out the records of the given cubes for a buffer with room for
/// `capacity` of them. Cubes beyond the capacity are dropped.
pub fn pack_instances(
    positions: &[Vec3],
    rotations: &[Vec4],
    colors: &[Vec3],
    capacity: u32,
) -> (records: Vec<InstanceData>)
    requires
        uploaded(positions@.len() as int, capacity as int) <= rotations@.len(),
        uploaded(positions@.len() as int, capacity as int) <= colors@.len(),
    ensures
        records@ == instance_records(positions@, rotations@, colors@, capacity),
        records@.len() == uploaded(positions@.len() as int, capacity as int),
        records@.len() <= capacity,
{
    let instance_count: usize = if positions.len() <= capacity as usize {
        positions.len()
    } else {
        capacity as usize
    };
    let mut instances: Vec<InstanceData> = Vec::with_capacity(instance_count);
    let mut i: usize = 0;
    while i < instance_count
        invariant
            i <= instance_count,
            instance_count == uploaded(positions@.len() as int, capacity as int),
            instance_count <= positions@.len(),
            instance_count <= rotations@.len(),
            instance_count <= colors@.len(),
            instances@.len() == i,
            forall|k: int|
                0 <= k < i ==> instances@[k] == instance_record(positions@, rotations@, colors@, k),
        decreases instance_count - i,
    {
        instances.push(
            InstanceData {
                position: positions[i],
                _padding: ZERO,
                rotation: rotations[i],
                color: colors[i],
                _padding2: ZERO,
            },
        );
        i = i + 1;
    }
    assert(instances@ =~= instance_records(positions@, rotations@, colors@, capacity));
    instances
}

/// The bindings every instanced pass starts with: the camera for both stages
/// and the instance records for the vertex stage.
pub open spec fn instance_bindings() -> Seq<BindGroupLayoutEntry> {
    seq![
        BindGroupLayoutEntry {
            binding: 0,
            visibility: ShaderStages { vertex: true, fragment: true },
            ty: BindingType::UniformBuffer,
        },
        BindGroupLayoutEntry {
            binding: 1,
            visibility: ShaderStages { vertex: true, fragment: false },
            ty: BindingType::ReadOnlyStorageBuffer,
        },
    ]
}

/// Builds the layout of the first bind group of an instanced pass.
pub fn instance_bind_group_layout() -> (entries: Vec<BindGroupLayoutEntry>)
    ensures
        entries@ == instance_bindings(),
{
    let mut entries: Vec<BindGroupLayoutEntry> = Vec::new();
    entries.push(
        BindGroupLayoutEntry {
            binding: 0,
            visibility: ShaderStages { vertex: true, fragment: true },
            ty: BindingType::UniformBuffer,
        },
    );
    entries.push(
        BindGroupLayoutEntry {
            binding: 1,
            visibility: ShaderStages { vertex: true, fragment: false },
            ty: BindingType::ReadOnlyStorageBuffer,
        },
    );
    entries
}

/// The pass that draws a mesh instanced into the scene: it keeps the colour
/// and depth that earlier passes left.
pub open spec fn shape_pass(label: Pass) -> RenderPassDescriptor {
    RenderPassDescriptor {
        label,
        color: Some(ColorAttachment { target: ColorTarget::Hdr, load: LoadOp::Load }),
        depth: Some(DepthAttachment { target: DepthTarget::Scene, load: LoadOp::Load }),
    }
}

/// The one draw of the cube pass: all instances at once.
pub open spec fn cube_draw(shadow_bound: bool, instances: u32) -> DrawCall {
    DrawCall {
        pipeline: Pipeline::Cube,
        shadow_bound,
        mesh: Some(Mesh::Cube),
        count: CUBE_INDEX_COUNT,
        instances,
    }
}

/// The commands of the cube pass.
pub open spec fn cube_pass_commands(shadow_bound: bool, instances: u32) -> Seq<Command> {
    seq![
        Command::BeginRenderPass(shape_pass(Pass::Cube)),
        Command::Draw(cube_draw(shadow_bound, instances)),
        Command::EndRenderPass,
    ]
}

/// Draws cubes, all instances in one draw call.
#[derive(Clone, Copy, Debug, PartialEq, Eq)]
pub struct InstanceRenderer {
    /// Instances the instance buffer has room for.
    pub max_instances: u32,
    /// Half the cube's edge, as a single-precision bit pattern.
    pub half_extent: u32,
    /// Whether the bind group that holds the shadow map has been set up.
    pub shadow_bound: bool,
}

impl InstanceRenderer {
    /// A cube renderer with room for `max_instances` cubes of the given
    /// half-extent. It renders unshadowed until `setup_shadow` is called.
    pub fn new(max_instances: u32, half_extent: u32) -> (r: InstanceRenderer)
        ensures
            r.max_instances == max_instances,
            r.half_extent == half_extent,
            !r.shadow_bound,
    {
        InstanceRenderer { max_instances, half_extent, shadow_bound: false }
    }

    /// The cube mesh this renderer draws.
    pub fn geometry(&self) -> (mesh: (Vec<Vertex>, Vec<u16>))
        ensures
            mesh.0@ == cube_vertices(self.half_extent),
            mesh.1@ == cube_indices(),
    {
        create_cube_geometry(self.half_extent)
    }

    /// The number of indices one cube takes.
    pub fn index_count(&self) -> (n: u32)
        ensures
            n == CUBE_INDEX_COUNT,
            n == cube_indices().len(),
    {
        CUBE_INDEX_COUNT
    }

    /// The buffer that holds the cube's vertices.
    pub fn vertex_buffer(&self) -> (d: BufferDescriptor)
        ensures
            d == vertex_buffer((CUBE_VERTEX_COUNT * VERTEX_STRIDE) as u64),
            d.size == cube_vertices(self.half_extent).len() * 4 * Vertex::word_count(),
    {
        make_vertex_buffer(CUBE_VERTEX_COUNT as u64 * VERTEX_STRIDE)
    }

    /// The buffer that holds the cube's indices.
    pub fn index_buffer(&self) -> (d: BufferDescriptor)
        ensures
            d == index_buffer((CUBE_INDEX_COUNT * INDEX_STRIDE) as u64),
            d.size == cube_indices().len() * 2,
    {
        make_index_buffer(CUBE_INDEX_COUNT as u64 * INDEX_STRIDE)
    }

    /// The instance buffer: one record for each instance it has room for.
    pub open spec fn spec_instance_buffer(&self) -> BufferDescriptor {
        storage_buffer((self.max_instances as u64 * INSTANCE_STRIDE) as u64)
    }

    /// The instance buffer: one record for each instance it has room for.
    #[verifier::when_used_as_spec(spec_instance_buffer)]
    pub fn instance_buffer(&self) -> (d: BufferDescriptor)
        ensures
            d == self.spec_instance_buffer(),
            d.size == self.max_instances * INSTANCE_STRIDE,
    {
        make_storage_buffer(self.max_instances as u64 * INSTANCE_STRIDE)
    }

    /// The buffer that holds the camera uniform.
    pub fn camera_buffer(&self) -> (d: BufferDescriptor)
        ensures
            d == uniform_buffer(CAMERA_UNIFORM_SIZE),
    {
        make_uniform_buffer(CAMERA_UNIFORM_SIZE)
    }

    /// The buffer that holds the light's matrix for shadow lookups.
    pub fn shadow_uniform_buffer(&self) -> (d: BufferDescriptor)
        ensures
            d == uniform_buffer(MATRIX_UNIFORM_SIZE),
    {
        make_uniform_buffer(MATRIX_UNIFORM_SIZE)
    }

    /// The layout of the first bind group: camera and instances.
    pub fn bind_group_layout(&self) -> (entries: Vec<BindGroupLayoutEntry>)
        ensures
            entries@ == instance_bindings(),
    {
        instance_bind_group_layout()
    }

    /// The layout of the second bind group: the shadow map.
    pub fn shadow_bind_group_layout(&self) -> (entries: Vec<BindGroupLayoutEntry>)
        ensures
            entries@ == shadow_bindings(),
    {
        shadow_bind_group_layout()
    }

    /// The pipeline that draws the cubes.
    pub fn pipeline(&self) -> (d: RenderPipelineDescriptor)
        ensures
            d == pipeline_descriptor(Pipeline::Cube),
    {
        describe_pipeline(Pipeline::Cube)
    }

    /// The records to write at the start of the instance buffer for the given
    /// cubes. No more records than the buffer has room for are produced; the
    /// cubes beyond that are dropped.
    pub fn upload_instances(
        &self,
        positions: &[Vec3],
        rotations: &[Vec4],
        colors: &[Vec3],
    ) -> (records: Vec<InstanceData>)
        requires
            uploaded(positions@.len() as int, self.max_instances as int) <= rotations@.len(),
            uploaded(positions@.len() as int, self.max_instances as int) <= colors@.len(),
        ensures
            records@ == instance_records(positions@, rotations@, colors@, self.max_instances),
            records@.len() == uploaded(positions@.len() as int, self.max_instances as int),
            records@.len() <= self.max_instances,
            records@.len() * INSTANCE_STRIDE <= self.spec_instance_buffer().size,
    {
        pack_instances(positions, rotations, colors, self.max_instances)
    }

    /// The uniform through which the cube shader reads the camera, given the
    /// camera's view matrix, its projection matrix and their product.
    pub fn update_camera(&self, camera: &Camera, view: Mat4, proj: Mat4, view_proj: Mat4) -> (u:
        CameraUniform)
        ensures
            u == camera_uniform(*camera, view, proj, view_proj),
    {
        camera.uniform(view, proj, view_proj)
    }

    /// Binds the shadow map; from now on the cubes are drawn shadowed.
    pub fn setup_shadow(&mut self)
        ensures
            final(self).shadow_bound,
            final(self).max_instances == old(self).max_instances,
            final(self).half_extent == old(self).half_extent,
    {
        self.shadow_bound = true;
    }

    /// The uniform through which the cube shader reads the light's matrix.
    pub fn update_shadow(&self, light_view_proj: Mat4) -> (u: ShadowUniform)
        ensures
            u.light_view_proj == light_view_proj,
    {
        ShadowUniform { light_view_proj }
    }

    /// Records the cube pass: one indexed draw that covers all
    /// `instance_count` instances, on top of the colour and depth that earlier
    /// passes left. The count is the number of records that were uploaded;
    /// `upload_instances` keeps it within the instance buffer.
    pub fn render(&self, encoder: &mut CommandEncoder, instance_count: u32)
        requires
            scene_ready(old(encoder).state(), true, self.shadow_bound),
        ensures
            final(encoder)@ == old(encoder)@ + cube_pass_commands(
                self.shadow_bound,
                instance_count,
            ),
            final(encoder).state() == old(encoder).state(),
    {
        encoder.begin_render_pass(
            RenderPassDescriptor {
                label: Pass::Cube,
                color: Some(ColorAttachment { target: ColorTarget::Hdr, load: LoadOp::Load }),
                depth: Some(DepthAttachment { target: DepthTarget::Scene, load: LoadOp::Load }),
            },
        );
        encoder.draw(
            DrawCall {
                pipeline: Pipeline::Cube,
                shadow_bound: self.shadow_bound,
                mesh: Some(Mesh::Cube),
                count: CUBE_INDEX_COUNT,
                instances: instance_count,
            },
        );
        encoder.end_render_pass();
        assert(encoder@ =~= old(encoder)@ + cube_pass_commands(self.shadow_bound, instance_count));
    }
}

} // verus!
