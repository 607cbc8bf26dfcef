//! Instanced spheres: the mesh's topology, the per-instance records and the
//! pass.
//!
//! The unit sphere is cut into rings from pole to pole and segments around
//! the axis. Where a vertex lies on that grid, and how triangles join the
//! vertices, is decided here; the coordinates of a grid point are
//! trigonometry and come from the caller.

use vstd::prelude::*;
use vstd::arithmetic::div_mod::lemma_fundamental_div_mod_converse;
use crate::gpu::bytes::{push_vec3, push_vec4, GpuData};
use crate::gpu::camera::{camera_uniform, Camera, CameraUniform, CAMERA_UNIFORM_SIZE};
use crate::gpu::command::{
    scene_ready,
    ColorAttachment,
    ColorTarget,
    Command,
    CommandEncoder,
    DepthAttachment,
    DepthTarget,
    DrawCall,
    LoadOp,
    Mesh,
    Pass,
    Pipeline,
    RenderPassDescriptor,
};
use crate::gpu::descriptor::{
    index_buffer,
    make_index_buffer,
    make_storage_buffer,
    make_uniform_buffer,
    make_vertex_buffer,
    shadow_bind_group_layout,
    shadow_bindings,
    storage_buffer,
    uniform_buffer,
    vertex_buffer,
    BindGroupLayoutEntry,
    BufferDescriptor,
    RenderPipelineDescriptor,
};
use crate::gpu::instance_renderer::{
    instance_bind_group_layout,
    instance_bindings,
    shape_pass,
    uploaded,
    ShadowUniform,
    INSTANCE_STRIDE,
    MATRIX_UNIFORM_SIZE,
};
use crate::gpu::pipelines::{describe_pipeline, pipeline_descriptor, INDEX_STRIDE, VERTEX_STRIDE};
use crate::scalar::{Mat4, Vec3, Vec4, ONE, ZERO};

verus! {

/// A vertex of the unit sphere. Its normal is its position.
#[derive(Clone, Copy, Debug, PartialEq, Eq)]
pub struct SphereVertex {
    pub position: Vec3,
    pub normal: Vec3,
}

impl GpuData for SphereVertex {
    open spec fn word_count() -> nat {
        6
    }

    open spec fn words(&self) -> Seq<u32> {
        self.position@ + self.normal@
    }

    proof fn lemma_word_count(&self) {
    }

    fn write_words(&self, out: &mut Vec<u32>) {
        push_vec3(out, &self.position);
        push_vec3(out, &self.normal);
        assert(out@ =~= old(out)@ + self.words());
    }
}

/// One sphere of a frame: centre, radius and colour. The rotation is carried
/// so that the record has the layout of a cube's; it is always the identity.
#[derive(Clone, Copy, Debug, PartialEq, Eq)]
pub struct SphereInstanceData {
    pub position: Vec3,
    pub radius: u32,
    pub rotation: Vec4,
    pub color: Vec3,
    pub _padding: u32,
}

impl GpuData for SphereInstanceData {
    open spec fn word_count() -> nat {
        12
    }

    open spec fn words(&self) -> Seq<u32> {
        self.position@ + seq![self.radius] + self.rotation@ + self.color@ + seq![self._padding]
    }

    proof fn lemma_word_count(&self) {
    }

    fn write_words(&self, out: &mut Vec<u32>) {
        push_vec3(out, &self.position);
        out.push(self.radius);
        push_vec4(out, &self.rotation);
        push_vec3(out, &self.color);
        out.push(self._padding);
        assert(out@ =~= old(out)@ + self.words());
    }
}

/// Segments around the axis of the sphere that is drawn.
pub const SPHERE_SEGMENTS: u32 = 16;

/// Rings from pole to pole of the sphere that is drawn.
pub const SPHERE_RINGS: u32 = 12;

/// Vertices of the sphere that is drawn.
pub const SPHERE_VERTEX_COUNT: u32 = 221;

/// Indices of the sphere that is drawn.
pub const SPHERE_INDEX_COUNT: u32 = 1152;

/// The largest number of vertices that 16-bit indices can name.
pub const MAX_INDEXED_VERTICES: u32 = 0x1_0000;

/// Vertices of a sphere: the grid has one more line than it has rings, and
/// one more than it has segments, because the seam is doubled.
pub open spec fn sphere_vertex_count(segments: int, rings: int) -> int {
    (segments + 1) * (rings + 1)
}

/// Indices of a sphere: two triangles for each cell of the grid.
pub open spec fn sphere_index_count(segments: int, rings: int) -> int {
    segments * rings * 6
}

/// The ring and the segment of vertex `i`: vertices run ring after ring, and
/// within a ring around the axis.
pub open spec fn grid_point(segments: int, i: int) -> (int, int) {
    (i / (segments + 1), i % (segments + 1))
}

/// The vertex at a grid point.
pub open spec fn grid_vertex(segments: int, ring: int, segment: int) -> int {
    ring * (segments + 1) + segment
}

/// The corner of a cell that position `t` of the cell's six indices names,
/// as steps from the cell's own grid point: rings on, and segments on. The
/// first triangle joins the cell's point, its neighbour one segment on, and
/// the point one ring on; the second joins that neighbour, the point one ring
/// and one segment on, and the point one ring on.
pub open spec fn cell_corner(t: int) -> (int, int) {
    if t == 0 {
        (0, 0)
    } else if t == 1 {
        (0, 1)
    } else if t == 2 {
        (1, 0)
    } else if t == 3 {
        (0, 1)
    } else if t == 4 {
        (1, 1)
    } else {
        (1, 0)
    }
}

/// The vertex that position `i` of the index list names. The cell `i / 6`
/// lies in ring `cell / segments` at segment `cell % segments`; position
/// `i % 6` names one of the cell's corners.
pub open spec fn sphere_index(segments: int, i: int) -> int {
    let cell = i / 6;
    let corner = cell_corner(i % 6);
    grid_vertex(segments, cell / segments + corner.0, cell % segments + corner.1)
}

/// Which way the triangle of three grid points turns, with segments counted
/// along the first axis and rings along the second: positive where it turns
/// from the direction of growing segments to that of growing rings.
pub open spec fn grid_turn(a: (int, int), b: (int, int), c: (int, int)) -> int {
    (b.1 - a.1) * (c.0 - a.0) - (b.0 - a.0) * (c.1 - a.1)
}

/// The index list of a sphere.
pub open spec fn sphere_indices(segments: int, rings: int) -> Seq<u16> {
    Seq::new(
        sphere_index_count(segments, rings) as nat,
        |i: int| sphere_index(segments, i) as u16,
    )
}

/// The vertex at a grid point is the one whose grid point it is.
pub proof fn lemma_grid_point(segments: int, ring: int, segment: int)
    requires
        0 <= segments,
        0 <= ring,
        0 <= segment <= segments,
    ensures
        grid_point(segments, grid_vertex(segments, ring, segment)) == (ring, segment),
{
    lemma_fundamental_div_mod_converse(
        grid_vertex(segments, ring, segment),
        segments + 1,
        ring,
        segment,
    );
}

/// The six indices of the cell at `(ring, segment)`.
proof fn lemma_cell_indices(segments: int, rings: int, ring: int, segment: int, t: int)
    requires
        0 < segments,
        0 <= ring < rings,
        0 <= segment < segments,
        0 <= t < 6,
    ensures
        ({
            let i = 6 * (ring * segments + segment) + t;
            let current = grid_vertex(segments, ring, segment);
            let next = grid_vertex(segments, ring + 1, segment);
            &&& 0 <= i < sphere_index_count(segments, rings)
            &&& sphere_index(segments, i) == grid_vertex(
                segments,
                ring + cell_corner(t).0,
                segment + cell_corner(t).1,
            )
            &&& sphere_index(segments, i) == if t == 0 {
                current
            } else if t == 1 {
                current + 1
            } else if t == 2 {
                next
            } else if t == 3 {
                current + 1
            } else if t == 4 {
                next + 1
            } else {
                next
            }
            &&& 0 <= current
            &&& next == current + segments + 1
            &&& next + 1 < sphere_vertex_count(segments, rings)
        }),
{
    let cell = ring * segments + segment;
    lemma_fundamental_div_mod_converse(cell, segments, ring, segment);
    assert(0 <= ring * segments && ring * segments + segments <= rings * segments)
        by (nonlinear_arith)
        requires
            0 <= ring < rings,
            0 < segments,
    ;
    assert(segments * rings * 6 == 6 * (rings * segments)) by (nonlinear_arith);
    assert((ring + 1) * (segments + 1) == ring * (segments + 1) + segments + 1)
        by (nonlinear_arith);
    assert(0 <= ring * (segments + 1) && (ring + 1) * (segments + 1) + segments + 1 <= (rings + 1)
        * (segments + 1)) by (nonlinear_arith)
        requires
            0 <= ring < rings,
            0 < segments,
    ;
    assert((segments + 1) * (rings + 1) == (rings + 1) * (segments + 1)) by (nonlinear_arith);
}

/// Every index of a sphere names one of its vertices.
pub proof fn lemma_sphere_indices_in_range(segments: int, rings: int, i: int)
    requires
        0 <= segments,
        0 <= rings,
        0 <= i < sphere_index_count(segments, rings),
    ensures
        0 <= sphere_index(segments, i) < sphere_vertex_count(segments, rings),
{
    assert(segments > 0 && rings > 0) by (nonlinear_arith)
        requires
            0 <= segments,
            0 <= rings,
            0 < segments * rings * 6,
    ;
    let cell = i / 6;
    let ring = cell / segments;
    let segment = cell % segments;
    assert(i < 6 * (rings * segments)) by (nonlinear_arith)
        requires
            i < segments * rings * 6,
    ;
    assert(cell < rings * segments);
    vstd::arithmetic::div_mod::lemma_fundamental_div_mod(cell, segments);
    assert(0 <= ring < rings) by (nonlinear_arith)
        requires
            0 <= cell < rings * segments,
            0 < segments,
            cell == segments * ring + segment,
            0 <= segment < segments,
    ;
    assert(segments * ring == ring * segments) by (nonlinear_arith);
    assert(i == 6 * (ring * segments + segment) + i % 6);
    lemma_cell_indices(segments, rings, ring, segment, i % 6);
    assert((ring + 1) * (segments + 1) == ring * (segments + 1) + segments + 1)
        by (nonlinear_arith);
}

/// Both triangles of every cell wind the same way: triangle `t` of the index
/// list names three grid points that turn from the direction of growing
/// segments to that of growing rings. Where the sphere's points are laid out
/// so that this turn is counter-clockwise seen from outside, every triangle
/// shows its front outside, as the cube's do.
pub proof fn lemma_sphere_winds_consistently(segments: int, rings: int, t: int)
    requires
        0 <= segments,
        0 <= rings,
        0 <= t < 2 * (segments * rings),
    ensures
        ({
            let a = grid_point(segments, sphere_index(segments, 3 * t));
            let b = grid_point(segments, sphere_index(segments, 3 * t + 1));
            let c = grid_point(segments, sphere_index(segments, 3 * t + 2));
            grid_turn(a, b, c) == 1
        }),
{
    assert(segments > 0 && rings > 0) by (nonlinear_arith)
        requires
            0 <= segments,
            0 <= rings,
            0 < 2 * (segments * rings),
    ;
    let cell = t / 2;
    let k = t % 2;
    let ring = cell / segments;
    let segment = cell % segments;
    assert(cell < rings * segments) by (nonlinear_arith)
        requires
            t < 2 * (segments * rings),
            cell == t / 2,
    ;
    vstd::arithmetic::div_mod::lemma_fundamental_div_mod(cell, segments);
    assert(0 <= ring < rings) by (nonlinear_arith)
        requires
            0 <= cell < rings * segments,
            0 < segments,
            cell == segments * ring + segment,
            0 <= segment < segments,
    ;
    assert(segments * ring == ring * segments) by (nonlinear_arith);
    assert(3 * t == 6 * (ring * segments + segment) + 3 * k);
    lemma_cell_indices(segments, rings, ring, segment, 3 * k);
    lemma_cell_indices(segments, rings, ring, segment, 3 * k + 1);
    lemma_cell_indices(segments, rings, ring, segment, 3 * k + 2);
    let ca = cell_corner(3 * k);
    let cb = cell_corner(3 * k + 1);
    let cc = cell_corner(3 * k + 2);
    lemma_grid_point(segments, ring + ca.0, segment + ca.1);
    lemma_grid_point(segments, ring + cb.0, segment + cb.1);
    lemma_grid_point(segments, ring + cc.0, segment + cc.1);
    let a = (ring + ca.0, segment + ca.1);
    let b = (ring + cb.0, segment + cb.1);
    let c = (ring + cc.0, segment + cc.1);
    assert(grid_turn(a, b, c) == 1) by (nonlinear_arith)
        requires
            k == 0 || k == 1,
            k == 0 ==> b.1 - a.1 == 1 && c.0 - a.0 == 1 && b.0 - a.0 == 0 && c.1 - a.1 == 0,
            k == 1 ==> b.1 - a.1 == 0 && c.0 - a.0 == 1 && b.0 - a.0 == 1 && c.1 - a.1 == -1,
    ;
}

/// A sphere whose vertices 16-bit indices can name has fewer than 65536
/// segments and rings.
proof fn lemma_grid_bounds(segments: int, rings: int)
    requires
        0 <= segments,
        0 <= rings,
        sphere_vertex_count(segments, rings) <= MAX_INDEXED_VERTICES,
    ensures
        segments < MAX_INDEXED_VERTICES,
        rings < MAX_INDEXED_VERTICES,
{
    assert(segments + 1 <= (segments + 1) * (rings + 1) && rings + 1 <= (segments + 1) * (rings
        + 1)) by (nonlinear_arith)
        requires
            0 <= segments,
            0 <= rings,
    ;
}

/// The grid points of a sphere's vertices, in vertex order: the ring, counted
/// from the pole at the top, and the segment, counted around the axis.
pub fn sphere_grid(segments: u32, rings: u32) -> (grid: Vec<(u32, u32)>)
    requires
        sphere_vertex_count(segments as int, rings as int) <= MAX_INDEXED_VERTICES,
    ensures
        grid@.len() == sphere_vertex_count(segments as int, rings as int),
        forall|i: int|
            0 <= i < grid@.len() ==> (grid@[i].0 as int, grid@[i].1 as int) == grid_point(
                segments as int,
                i,
            ),
        forall|i: int| 0 <= i < grid@.len() ==> grid@[i].0 <= rings && grid@[i].1 <= segments,
{
    let mut grid: Vec<(u32, u32)> = Vec::new();
    let mut ring: u32 = 0;
    proof {
        lemma_grid_bounds(segments as int, rings as int);
    }
    while ring <= rings
        invariant
            ring <= rings + 1,
            segments < MAX_INDEXED_VERTICES,
            rings < MAX_INDEXED_VERTICES,
            sphere_vertex_count(segments as int, rings as int) <= MAX_INDEXED_VERTICES,
            grid@.len() == ring * (segments + 1),
            forall|i: int|
                0 <= i < grid@.len() ==> (grid@[i].0 as int, grid@[i].1 as int) == grid_point(
                    segments as int,
                    i,
                ),
            forall|i: int| 0 <= i < grid@.len() ==> grid@[i].0 <= rings && grid@[i].1 <= segments,
        decreases rings + 1 - ring,
    {
        let mut segment: u32 = 0;
        while segment <= segments
            invariant
                ring <= rings,
                segment <= segments + 1,
                segments < MAX_INDEXED_VERTICES,
                rings < MAX_INDEXED_VERTICES,
                sphere_vertex_count(segments as int, rings as int) <= MAX_INDEXED_VERTICES,
                grid@.len() == ring * (segments + 1) + segment,
                forall|i: int|
                    0 <= i < grid@.len() ==> (grid@[i].0 as int, grid@[i].1 as int) == grid_point(
                        segments as int,
                        i,
                    ),
                forall|i: int|
                    0 <= i < grid@.len() ==> grid@[i].0 <= rings && grid@[i].1 <= segments,
            decreases segments + 1 - segment,
        {
            proof {
                lemma_grid_point(segments as int, ring as int, segment as int);
            }
            grid.push((ring, segment));
            segment = segment + 1;
        }
        proof {
            assert((ring + 1) * (segments + 1) == ring * (segments + 1) + segments + 1)
                by (nonlinear_arith);
        }
        ring = ring + 1;
    }
    proof {
        assert((rings + 1) * (segments + 1) == (segments + 1) * (rings + 1)) by (nonlinear_arith);
    }
    grid
}

/// The index list of a sphere: for each cell of the grid, ring after ring,
/// two triangles.
pub fn create_sphere_indices(segments: u32, rings: u32) -> (indices: Vec<u16>)
    requires
        sphere_vertex_count(segments as int, rings as int) <= MAX_INDEXED_VERTICES,
    ensures
        indices@ == sphere_indices(segments as int, rings as int),
        indices@.len() == sphere_index_count(segments as int, rings as int),
{
    let mut indices: Vec<u16> = Vec::new();
    let mut ring: u32 = 0;
    while ring < rings
        invariant
            ring <= rings,
            sphere_vertex_count(segments as int, rings as int) <= MAX_INDEXED_VERTICES,
            indices@.len() == 6 * (ring * segments),
            forall|i: int|
                0 <= i < indices@.len() ==> indices@[i] == sphere_index(segments as int, i) as u16,
        decreases rings - ring,
    {
        let mut segment: u32 = 0;
        while segment < segments
            invariant
                ring < rings,
                segment <= segments,
                sphere_vertex_count(segments as int, rings as int) <= MAX_INDEXED_VERTICES,
                indices@.len() == 6 * (ring * segments + segment),
                forall|i: int|
                    0 <= i < indices@.len() ==> indices@[i] == sphere_index(segments as int, i)
                        as u16,
            decreases segments - segment,
        {
            proof {
                lemma_cell_indices(segments as int, rings as int, ring as int, segment as int, 0);
                lemma_cell_indices(segments as int, rings as int, ring as int, segment as int, 1);
                lemma_cell_indices(segments as int, rings as int, ring as int, segment as int, 2);
                lemma_cell_indices(segments as int, rings as int, ring as int, segment as int, 3);
                lemma_cell_indices(segments as int, rings as int, ring as int, segment as int, 4);
                lemma_cell_indices(segments as int, rings as int, ring as int, segment as int, 5);
                assert((ring + 1) * (segments + 1) == ring * (segments + 1) + segments + 1)
                    by (nonlinear_arith);
            }
            let current: u32 = ring * (segments + 1) + segment;
            let next: u32 = current + segments + 1;
            indices.push(current as u16);
            indices.push((current + 1) as u16);
            indices.push(next as u16);
            indices.push((current + 1) as u16);
            indices.push((next + 1) as u16);
            indices.push(next as u16);
            segment = segment + 1;
        }
        proof {
            assert((ring + 1) * segments == ring * segments + segments) by (nonlinear_arith);
        }
        ring = ring + 1;
    }
    proof {
        assert(6 * (rings * segments) == segments * rings * 6) by (nonlinear_arith);
        assert(indices@ =~= sphere_indices(segments as int, rings as int));
    }
    indices
}

/// The vertices of a sphere whose grid points have the coordinates `points`.
pub open spec fn sphere_vertices(points: Seq<Vec3>) -> Seq<SphereVertex> {
    Seq::new(points.len(), |i: int| SphereVertex { position: points[i], normal: points[i] })
}

/// The sphere mesh with the given number of segments and rings, from the
/// coordinates of its grid points in the order of `sphere_grid`. Each vertex
/// gets its position as its normal.
pub fn create_sphere_geometry(segments: u32, rings: u32, points: &[Vec3]) -> (mesh: (
    Vec<SphereVertex>,
    Vec<u16>,
))
    requires
        sphere_vertex_count(segments as int, rings as int) <= MAX_INDEXED_VERTICES,
        points@.len() == sphere_vertex_count(segments as int, rings as int),
    ensures
        mesh.0@ == sphere_vertices(points@),
        mesh.0@.len() == sphere_vertex_count(segments as int, rings as int),
        forall|i: int| 0 <= i < mesh.0@.len() ==> mesh.0@[i].normal == mesh.0@[i].position,
        mesh.1@ == sphere_indices(segments as int, rings as int),
        mesh.1@.len() == sphere_index_count(segments as int, rings as int),
{
    let mut vertices: Vec<SphereVertex> = Vec::with_capacity(points.len());
    let mut i: usize = 0;
    while i < points.len()
        invariant
            i <= points@.len(),
            vertices@.len() == i,
            forall|k: int|
                0 <= k < i ==> vertices@[k] == (SphereVertex {
                    position: points@[k],
                    normal: points@[k],
                }),
        decreases points@.len() - i,
    {
        vertices.push(SphereVertex { position: points[i], normal: points[i] });
        i = i + 1;
    }
    assert(vertices@ =~= sphere_vertices(points@));
    let indices = create_sphere_indices(segments, rings);
    (vertices, indices)
}

/// The record of sphere `i` of a frame.
pub open spec fn sphere_record(
    positions: Seq<Vec3>,
    radii: Seq<u32>,
    colors: Seq<Vec3>,
    i: int,
) -> SphereInstanceData {
    SphereInstanceData {
        position: positions[i],
        radius: radii[i],
        rotation: [ZERO, ZERO, ZERO, ONE],
        color: colors[i],
        _padding: ZERO,
    }
}

/// The records that go to the GPU for the given spheres, in order.
pub open spec fn sphere_records(
    positions: Seq<Vec3>,
    radii: Seq<u32>,
    colors: Seq<Vec3>,
    capacity: u32,
) -> Seq<SphereInstanceData> {
    Seq::new(
        uploaded(positions.len() as int, capacity as int) as nat,
        |i: int| sphere_record(positions, radii, colors, i),
    )
}

/// Lays out the records of the given spheres for a buffer with room for
/// `capacity` of them. Spheres beyond the capacity are dropped.
pub fn pack_sphere_instances(
    positions: &[Vec3],
    radii: &[u32],
    colors: &[Vec3],
    capacity: u32,
) -> (records: Vec<SphereInstanceData>)
    requires
        uploaded(positions@.len() as int, capacity as int) <= radii@.len(),
        uploaded(positions@.len() as int, capacity as int) <= colors@.len(),
    ensures
        records@ == sphere_records(positions@, radii@, colors@, capacity),
        records@.len() == uploaded(positions@.len() as int, capacity as int),
        records@.len() <= capacity,
{
    let instance_count: usize = if positions.len() <= capacity as usize {
        positions.len()
    } else {
        capacity as usize
    };
    let mut instances: Vec<SphereInstanceData> = Vec::with_capacity(instance_count);
    let mut i: usize = 0;
    while i < instance_count
        invariant
            i <= instance_count,
            instance_count == uploaded(positions@.len() as int, capacity as int),
            instance_count <= positions@.len(),
            instance_count <= radii@.len(),
            instance_count <= colors@.len(),
            instances@.len() == i,
            forall|k: int|
                0 <= k < i ==> instances@[k] == sphere_record(positions@, radii@, colors@, k),
        decreases instance_count - i,
    {
        let record = SphereInstanceData {
            position: positions[i],
            radius: radii[i],
            rotation: [ZERO, ZERO, ZERO, ONE],
            color: colors[i],
            _padding: ZERO,
        };
        assert(record.rotation =~= sphere_record(positions@, radii@, colors@, i as int).rotation);
        instances.push(record);
        i = i + 1;
    }
    assert(instances@ =~= sphere_records(positions@, radii@, colors@, capacity));
    instances
}

/// The one draw of the sphere pass: all instances at once.
pub open spec fn sphere_draw(shadow_bound: bool, instances: u32) -> DrawCall {
    DrawCall {
        pipeline: Pipeline::Sphere,
        shadow_bound,
        mesh: Some(Mesh::Sphere),
        count: SPHERE_INDEX_COUNT,
        instances,
    }
}

/// The commands of the sphere pass: none where there is no sphere.
pub open spec fn sphere_pass_commands(shadow_bound: bool, instance_count: u32) -> Seq<Command> {
    if instance_count == 0 {
        Seq::empty()
    } else {
        seq![
            Command::BeginRenderPass(shape_pass(Pass::Sphere)),
            Command::Draw(sphere_draw(shadow_bound, instance_count)),
            Command::EndRenderPass,
        ]
    }
}

/// Draws spheres, all instances in one draw call.
#[derive(Clone, Copy, Debug, PartialEq, Eq)]
pub struct SphereRenderer {
    /// Instances the instance buffer has room for.
    pub max_instances: u32,
    /// Whether the bind group that holds the shadow map has been set up.
    pub shadow_bound: bool,
}

impl SphereRenderer {
    /// A sphere renderer with room for `max_instances` spheres. It renders
    /// unshadowed until `setup_shadow` is called.
    pub fn new(max_instances: u32) -> (r: SphereRenderer)
        ensures
            r.max_instances == max_instances,
            !r.shadow_bound,
    {
        SphereRenderer { max_instances, shadow_bound: false }
    }

    /// The grid points of the sphere mesh this renderer draws.
    pub fn grid(&self) -> (grid: Vec<(u32, u32)>)
        ensures
            grid@.len() == SPHERE_VERTEX_COUNT,
            forall|i: int|
                0 <= i < grid@.len() ==> (grid@[i].0 as int, grid@[i].1 as int) == grid_point(
                    SPHERE_SEGMENTS as int,
                    i,
                ),
    {
        sphere_grid(SPHERE_SEGMENTS, SPHERE_RINGS)
    }

    /// The sphere mesh this renderer draws, from the coordinates of its grid
    /// points.
    pub fn geometry(&self, points: &[Vec3]) -> (mesh: (Vec<SphereVertex>, Vec<u16>))
        requires
            points@.len() == SPHERE_VERTEX_COUNT,
        ensures
            mesh.0@ == sphere_vertices(points@),
            mesh.1@ == sphere_indices(SPHERE_SEGMENTS as int, SPHERE_RINGS as int),
            mesh.1@.len() == SPHERE_INDEX_COUNT,
    {
        create_sphere_geometry(SPHERE_SEGMENTS, SPHERE_RINGS, points)
    }

    /// The number of indices one sphere takes.
    pub fn index_count(&self) -> (n: u32)
        ensures
            n == SPHERE_INDEX_COUNT,
            n == sphere_index_count(SPHERE_SEGMENTS as int, SPHERE_RINGS as int),
    {
        SPHERE_INDEX_COUNT
    }

    /// The buffer that holds the sphere's vertices.
    pub fn vertex_buffer(&self) -> (d: BufferDescriptor)
        ensures
            d == vertex_buffer((SPHERE_VERTEX_COUNT * VERTEX_STRIDE) as u64),
            d.size == sphere_vertex_count(SPHERE_SEGMENTS as int, SPHERE_RINGS as int) * 4
                * SphereVertex::word_count(),
    {
        make_vertex_buffer(SPHERE_VERTEX_COUNT as u64 * VERTEX_STRIDE)
    }

    /// The buffer that holds the sphere's indices.
    pub fn index_buffer(&self) -> (d: BufferDescriptor)
        ensures
            d == index_buffer((SPHERE_INDEX_COUNT * INDEX_STRIDE) as u64),
            d.size == sphere_index_count(SPHERE_SEGMENTS as int, SPHERE_RINGS as int) * 2,
    {
        make_index_buffer(SPHERE_INDEX_COUNT as u64 * INDEX_STRIDE)
    }

    /// The instance buffer: one record for each instance it has room for.
    pub open spec fn spec_instance_buffer(&self) -> BufferDescriptor {
        storage_buffer((self.max_instances as u64 * INSTANCE_STRIDE) as u64)
    }

    /// The instance buffer: one record for each instance it has room for.
    #[verifier::when_used_as_spec(spec_instance_buffer)]
    pub fn instance_buffer(&self) -> (d: BufferDescriptor)
        ensures
            d == self.spec_instance_buffer(),
            d.size == self.max_instances * INSTANCE_STRIDE,
    {
        make_storage_buffer(self.max_instances as u64 * INSTANCE_STRIDE)
    }

    /// The buffer that holds the camera uniform.
    pub fn camera_buffer(&self) -> (d: BufferDescriptor)
        ensures
            d == uniform_buffer(CAMERA_UNIFORM_SIZE),
    {
        make_uniform_buffer(CAMERA_UNIFORM_SIZE)
    }

    /// The buffer that holds the light's matrix for shadow lookups.
    pub fn shadow_uniform_buffer(&self) -> (d: BufferDescriptor)
        ensures
            d == uniform_buffer(MATRIX_UNIFORM_SIZE),
    {
        make_uniform_buffer(MATRIX_UNIFORM_SIZE)
    }

    /// The layout of the first bind group: camera and instances.
    pub fn bind_group_layout(&self) -> (entries: Vec<BindGroupLayoutEntry>)
        ensures
            entries@ == instance_bindings(),
    {
        instance_bind_group_layout()
    }

    /// The layout of the second bind group: the shadow map.
    pub fn shadow_bind_group_layout(&self) -> (entries: Vec<BindGroupLayoutEntry>)
        ensures
            entries@ == shadow_bindings(),
    {
        shadow_bind_group_layout()
    }

    /// The pipeline that draws the spheres.
    pub fn pipeline(&self) -> (d: RenderPipelineDescriptor)
        ensures
            d == pipeline_descriptor(Pipeline::Sphere),
    {
        describe_pipeline(Pipeline::Sphere)
    }

    /// The records to write at the start of the instance buffer for the given
    /// spheres. No more records than the buffer has room for are produced; the
    /// spheres beyond that are dropped.
    pub fn upload_instances(&self, positions: &[Vec3], radii: &[u32], colors: &[Vec3]) -> (records:
        Vec<SphereInstanceData>)
        requires
            uploaded(positions@.len() as int, self.max_instances as int) <= radii@.len(),
            uploaded(positions@.len() as int, self.max_instances as int) <= colors@.len(),
        ensures
            records@ == sphere_records(positions@, radii@, colors@, self.max_instances),
            records@.len() == uploaded(positions@.len() as int, self.max_instances as int),
            records@.len() <= self.max_instances,
            records@.len() * INSTANCE_STRIDE <= self.spec_instance_buffer().size,
    {
        pack_sphere_instances(positions, radii, colors, self.max_instances)
    }

    /// The uniform through which the sphere shader reads the camera, given
    /// the camera's view matrix, its projection matrix and their product.
    pub fn update_camera(&self, camera: &Camera, view: Mat4, proj: Mat4, view_proj: Mat4) -> (u:
        CameraUniform)
        ensures
            u == camera_uniform(*camera, view, proj, view_proj),
    {
        camera.uniform(view, proj, view_proj)
    }

    /// Binds the shadow map; from now on the spheres are drawn shadowed.
    pub fn setup_shadow(&mut self)
        ensures
            final(self).shadow_bound,
            final(self).max_instances == old(self).max_instances,
    {
        self.shadow_bound = true;
    }

    /// The uniform through which the sphere shader reads the light's matrix.
    pub fn update_shadow(&self, light_view_proj: Mat4) -> (u: ShadowUniform)
        ensures
            u.light_view_proj == light_view_proj,
    {
        ShadowUniform { light_view_proj }
    }

    /// Records the sphere pass: one indexed draw that covers all
    /// `instance_count` instances, on top of the colour and depth that earlier
    /// passes left. Where there is no sphere, nothing is recorded. The count
    /// is the number of records that were uploaded; `upload_instances` keeps
    /// it within the instance buffer.
    pub fn render(&self, encoder: &mut CommandEncoder, instance_count: u32)
        requires
            scene_ready(old(encoder).state(), true, self.shadow_bound),
        ensures
            final(encoder)@ == old(encoder)@ + sphere_pass_commands(
                self.shadow_bound,
                instance_count,
            ),
            final(encoder).state() == old(encoder).state(),
    {
        if instance_count == 0 {
            assert(encoder@ =~= old(encoder)@ + Seq::<Command>::empty());
            return ;
        }
        encoder.begin_render_pass(
            RenderPassDescriptor {
                label: Pass::Sphere,
                color: Some(ColorAttachment { target: ColorTarget::Hdr, load: LoadOp::Load }),
                depth: Some(DepthAttachment { target: DepthTarget::Scene, load: LoadOp::Load }),
            },
        );
        encoder.draw(
            DrawCall {
                pipeline: Pipeline::Sphere,
                shadow_bound: self.shadow_bound,
                mesh: Some(Mesh::Sphere),
                count: SPHERE_INDEX_COUNT,
                instances: instance_count,
            },
        );
        encoder.end_render_pass();
        assert(encoder@ =~= old(encoder)@ + sphere_pass_commands(
            self.shadow_bound,
            instance_count,
        ));
    }
}

} // verus!
