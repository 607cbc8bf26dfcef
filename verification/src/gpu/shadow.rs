//! The shadow map: a depth-only view of all shapes from the light.

use vstd::prelude::*;
use crate::gpu::bytes::{mat4_words, push_mat4, GpuData};
use crate::gpu::command::{
    Command,
    CommandEncoder,
    DepthAttachment,
    DepthTarget,
    DrawCall,
    EncoderState,
    LoadOp,
    Mesh,
    Pass,
    Pipeline,
    RenderPassDescriptor,
    Written,
};
use crate::gpu::descriptor::{
    make_storage_buffer,
    make_uniform_buffer,
    storage_buffer,
    uniform_buffer,
    BindGroupLayoutEntry,
    BindingType,
    BufferDescriptor,
    CompareFunction,
    RenderPipelineDescriptor,
    SamplerDescriptor,
    ShaderStages,
    TextureDescriptor,
    TextureFormat,
    TextureUsages,
};
use crate::gpu::instance_renderer::{
    create_cube_geometry,
    cube_indices,
    cube_vertices,
    instance_records,
    pack_instances,
    uploaded,
    InstanceData,
    Vertex,
    CUBE_INDEX_COUNT,
    INSTANCE_STRIDE,
    MATRIX_UNIFORM_SIZE,
};
use crate::gpu::pipelines::{describe_pipeline, pipeline_descriptor};
use crate::gpu::sphere_renderer::{
    create_sphere_geometry,
    pack_sphere_instances,
    sphere_indices,
    sphere_records,
    sphere_vertices,
    SphereInstanceData,
    SphereVertex,
    SPHERE_INDEX_COUNT,
    SPHERE_RINGS,
    SPHERE_SEGMENTS,
    SPHERE_VERTEX_COUNT,
};
use crate::scalar::{Mat4, Vec3, Vec4};
use crate::scene::builder::ShapeType;

verus! {

/// Edge of the square shadow map, in texels.
pub const SHADOW_MAP_SIZE: u32 = 2048;

/// Bit pattern of `100.0`, the half-width of the light's frustum at the start.
pub const DEFAULT_FRUSTUM_SIZE: u32 = 0x42c8_0000;

/// The light's direction at the start: the unit vector along
/// `(-0.5, 0.9, 0.6)`, in single precision.
pub open spec fn default_light_direction() -> Vec3 {
    [0xbed6_d497u32, 0x3f41_58eeu32, 0x3f00_e5f5u32]
}

/// The light's view-projection matrix, as the shadow pass reads it.
#[derive(Clone, Copy, Debug, PartialEq, Eq)]
pub struct LightCameraUniform {
    pub view_proj: Mat4,
}

impl GpuData for LightCameraUniform {
    open spec fn word_count() -> nat {
        16
    }

    open spec fn words(&self) -> Seq<u32> {
        mat4_words(self.view_proj)
    }

    proof fn lemma_word_count(&self) {
    }

    fn write_words(&self, out: &mut Vec<u32>) {
        push_mat4(out, &self.view_proj);
    }
}

/// The shadow map: a square depth texture that is rendered into and then
/// sampled.
pub open spec fn shadow_map_descriptor() -> TextureDescriptor {
    TextureDescriptor {
        width: SHADOW_MAP_SIZE,
        height: SHADOW_MAP_SIZE,
        format: TextureFormat::Depth32Float,
        usage: TextureUsages { render_attachment: true, texture_binding: true, copy_src: false },
    }
}

/// The bindings of the shadow pass, all for the vertex stage: the light's
/// matrix, the cube records and the sphere records.
pub open spec fn shadow_pass_bindings() -> Seq<BindGroupLayoutEntry> {
    seq![
        BindGroupLayoutEntry {
            binding: 0,
            visibility: ShaderStages { vertex: true, fragment: false },
            ty: BindingType::UniformBuffer,
        },
        BindGroupLayoutEntry {
            binding: 1,
            visibility: ShaderStages { vertex: true, fragment: false },
            ty: BindingType::ReadOnlyStorageBuffer,
        },
        BindGroupLayoutEntry {
            binding: 2,
            visibility: ShaderStages { vertex: true, fragment: false },
            ty: BindingType::ReadOnlyStorageBuffer,
        },
    ]
}

/// The shadow pass renders depth only and starts from the far plane.
pub open spec fn shadow_pass() -> RenderPassDescriptor {
    RenderPassDescriptor {
        label: Pass::Shadow,
        color: None,
        depth: Some(DepthAttachment { target: DepthTarget::ShadowMap, load: LoadOp::Clear }),
    }
}

/// The draw of one kind of shape into the shadow map.
pub open spec fn shadow_draw(shape: ShapeType, instances: u32) -> DrawCall {
    match shape {
        ShapeType::Cube => DrawCall {
            pipeline: Pipeline::ShadowCube,
            shadow_bound: false,
            mesh: Some(Mesh::Cube),
            count: CUBE_INDEX_COUNT,
            instances,
        },
        ShapeType::Sphere => DrawCall {
            pipeline: Pipeline::ShadowSphere,
            shadow_bound: false,
            mesh: Some(Mesh::Sphere),
            count: SPHERE_INDEX_COUNT,
            instances,
        },
    }
}

/// The draws of one kind of shape: one draw for all `count` instances, none
/// where there is no instance.
pub open spec fn shadow_draws(shape: ShapeType, count: u32) -> Seq<Command> {
    if count == 0 {
        Seq::empty()
    } else {
        seq![Command::Draw(shadow_draw(shape, count))]
    }
}

/// The commands of the shadow pass: cubes first, then spheres.
pub open spec fn shadow_pass_commands(cube_count: u32, sphere_count: u32) -> Seq<Command> {
    seq![Command::BeginRenderPass(shadow_pass())] + shadow_draws(ShapeType::Cube, cube_count)
        + shadow_draws(ShapeType::Sphere, sphere_count) + seq![Command::EndRenderPass]
}

/// Renders the depth of all shapes as the light sees them.
#[derive(Clone, Copy, Debug, PartialEq, Eq)]
pub struct ShadowRenderer {
    /// Direction towards the light, of unit length.
    pub light_dir: Vec3,
    /// Half-width of the light's orthographic frustum, as a single-precision
    /// bit pattern.
    pub frustum_size: u32,
    /// Instances each instance buffer has room for.
    pub max_instances: u32,
    /// Half the cube's edge, as a single-precision bit pattern.
    pub half_extent: u32,
}

impl ShadowRenderer {
    /// A shadow renderer with room for `max_instances` shapes of each kind.
    pub fn new(max_instances: u32, half_extent: u32) -> (r: ShadowRenderer)
        ensures
            r.max_instances == max_instances,
            r.half_extent == half_extent,
            r.frustum_size == DEFAULT_FRUSTUM_SIZE,
            r.light_dir == default_light_direction(),
    {
        let light_dir: Vec3 = [0xbed6_d497, 0x3f41_58ee, 0x3f00_e5f5];
        assert(light_dir =~= default_light_direction());
        ShadowRenderer {
            light_dir,
            frustum_size: DEFAULT_FRUSTUM_SIZE,
            max_instances,
            half_extent,
        }
    }

    /// Sets the direction towards the light. `unit_dir` is the direction
    /// scaled to length one.
    pub fn set_light_direction(&mut self, unit_dir: Vec3)
        ensures
            final(self).light_dir == unit_dir,
            final(self).frustum_size == old(self).frustum_size,
            final(self).max_instances == old(self).max_instances,
            final(self).half_extent == old(self).half_extent,
    {
        self.light_dir = unit_dir;
    }

    /// Sets the half-width of the area that casts and receives shadows.
    pub fn set_frustum_size(&mut self, size: u32)
        ensures
            final(self).frustum_size == size,
            final(self).light_dir == old(self).light_dir,
            final(self).max_instances == old(self).max_instances,
            final(self).half_extent == old(self).half_extent,
    {
        self.frustum_size = size;
    }

    /// The shadow map texture.
    pub fn shadow_map(&self) -> (d: TextureDescriptor)
        ensures
            d == shadow_map_descriptor(),
            d.format == DepthTarget::ShadowMap.format(),
    {
        TextureDescriptor {
            width: SHADOW_MAP_SIZE,
            height: SHADOW_MAP_SIZE,
            format: TextureFormat::Depth32Float,
            usage: TextureUsages {
                render_attachment: true,
                texture_binding: true,
                copy_src: false,
            },
        }
    }

    /// The sampler through which shaded passes look a depth up: it compares
    /// with "less or equal".
    pub fn shadow_sampler(&self) -> (d: SamplerDescriptor)
        ensures
            d == (SamplerDescriptor { compare: Some(CompareFunction::LessEqual) }),
    {
        SamplerDescriptor { compare: Some(CompareFunction::LessEqual) }
    }

    /// The buffer that holds the light's matrix.
    pub fn light_camera_buffer(&self) -> (d: BufferDescriptor)
        ensures
            d == uniform_buffer(MATRIX_UNIFORM_SIZE),
    {
        make_uniform_buffer(MATRIX_UNIFORM_SIZE)
    }

    /// The instance buffer of either kind of shape: one record for each
    /// instance it has room for.
    pub open spec fn spec_instance_buffer(&self) -> BufferDescriptor {
        storage_buffer((self.max_instances as u64 * INSTANCE_STRIDE) as u64)
    }

    /// The instance buffer of either kind of shape.
    #[verifier::when_used_as_spec(spec_instance_buffer)]
    pub fn instance_buffer(&self) -> (d: BufferDescriptor)
        ensures
            d == self.spec_instance_buffer(),
            d.size == self.max_instances * INSTANCE_STRIDE,
    {
        make_storage_buffer(self.max_instances as u64 * INSTANCE_STRIDE)
    }

    /// The layout of the bind group of both shadow pipelines.
    pub fn bind_group_layout(&self) -> (entries: Vec<BindGroupLayoutEntry>)
        ensures
            entries@ == shadow_pass_bindings(),
    {
        let mut entries: Vec<BindGroupLayoutEntry> = Vec::new();
        entries.push(
            BindGroupLayoutEntry {
                binding: 0,
                visibility: ShaderStages { vertex: true, fragment: false },
                ty: BindingType::UniformBuffer,
            },
        );
        entries.push(
            BindGroupLayoutEntry {
                binding: 1,
                visibility: ShaderStages { vertex: true, fragment: false },
                ty: BindingType::ReadOnlyStorageBuffer,
            },
        );
        entries.push(
            BindGroupLayoutEntry {
                binding: 2,
                visibility: ShaderStages { vertex: true, fragment: false },
                ty: BindingType::ReadOnlyStorageBuffer,
            },
        );
        entries
    }

    /// The pipeline that draws one kind of shape into the shadow map.
    pub fn pipeline(&self, shape: ShapeType) -> (d: RenderPipelineDescriptor)
        ensures
            d == pipeline_descriptor(shadow_draw(shape, 0).pipeline),
    {
        match shape {
            ShapeType::Cube => describe_pipeline(Pipeline::ShadowCube),
            ShapeType::Sphere => describe_pipeline(Pipeline::ShadowSphere),
        }
    }

    /// The cube mesh that casts shadows: the mesh that is drawn.
    pub fn cube_geometry(&self) -> (mesh: (Vec<Vertex>, Vec<u16>))
        ensures
            mesh.0@ == cube_vertices(self.half_extent),
            mesh.1@ == cube_indices(),
    {
        create_cube_geometry(self.half_extent)
    }

    /// The sphere mesh that casts shadows: the mesh that is drawn, from the
    /// coordinates of its grid points.
    pub fn sphere_geometry(&self, points: &[Vec3]) -> (mesh: (Vec<SphereVertex>, Vec<u16>))
        requires
            points@.len() == SPHERE_VERTEX_COUNT,
        ensures
            mesh.0@ == sphere_vertices(points@),
            mesh.1@ == sphere_indices(SPHERE_SEGMENTS as int, SPHERE_RINGS as int),
    {
        create_sphere_geometry(SPHERE_SEGMENTS, SPHERE_RINGS, points)
    }

    /// The records to write at the start of the cube instance buffer. Cubes
    /// beyond the buffer's capacity are dropped.
    pub fn upload_cube_instances(
        &self,
        positions: &[Vec3],
        rotations: &[Vec4],
        colors: &[Vec3],
    ) -> (records: Vec<InstanceData>)
        requires
            uploaded(positions@.len() as int, self.max_instances as int) <= rotations@.len(),
            uploaded(positions@.len() as int, self.max_instances as int) <= colors@.len(),
        ensures
            records@ == instance_records(positions@, rotations@, colors@, self.max_instances),
            records@.len() == uploaded(positions@.len() as int, self.max_instances as int),
            records@.len() * INSTANCE_STRIDE <= self.spec_instance_buffer().size,
    {
        pack_instances(positions, rotations, colors, self.max_instances)
    }

    /// The records to write at the start of the sphere instance buffer.
    /// Spheres beyond the buffer's capacity are dropped.
    pub fn upload_sphere_instances(
        &self,
        positions: &[Vec3],
        radii: &[u32],
        colors: &[Vec3],
    ) -> (records: Vec<SphereInstanceData>)
        requires
            uploaded(positions@.len() as int, self.max_instances as int) <= radii@.len(),
            uploaded(positions@.len() as int, self.max_instances as int) <= colors@.len(),
        ensures
            records@ == sphere_records(positions@, radii@, colors@, self.max_instances),
            records@.len() == uploaded(positions@.len() as int, self.max_instances as int),
            records@.len() * INSTANCE_STRIDE <= self.spec_instance_buffer().size,
    {
        pack_sphere_instances(positions, radii, colors, self.max_instances)
    }

    /// The uniform through which the shadow pass reads the light's matrix.
    pub fn update_light_camera(&self, view_proj: Mat4) -> (u: LightCameraUniform)
        ensures
            u.view_proj == view_proj,
    {
        LightCameraUniform { view_proj }
    }

    /// Records the shadow pass: the map is cleared to the far plane, then the
    /// cubes and then the spheres are drawn, each kind in one draw call that
    /// covers all instances counted, and only if there is an instance of it.
    /// The counts are the numbers of records that were uploaded;
    /// `upload_cube_instances` and `upload_sphere_instances` keep them within
    /// the instance buffers.
    pub fn render(&self, encoder: &mut CommandEncoder, cube_count: u32, sphere_count: u32)
        requires
            old(encoder).state().open is None,
            !old(encoder).state().written.shadow_map,
        ensures
            final(encoder)@ == old(encoder)@ + shadow_pass_commands(cube_count, sphere_count),
            final(encoder).state() == (EncoderState {
                open: None,
                written: Written { shadow_map: true, ..old(encoder).state().written },
            }),
    {
        encoder.begin_render_pass(
            RenderPassDescriptor {
                label: Pass::Shadow,
                color: None,
                depth: Some(
                    DepthAttachment { target: DepthTarget::ShadowMap, load: LoadOp::Clear },
                ),
            },
        );
        if cube_count > 0 {
            encoder.draw(
                DrawCall {
                    pipeline: Pipeline::ShadowCube,
                    shadow_bound: false,
                    mesh: Some(Mesh::Cube),
                    count: CUBE_INDEX_COUNT,
                    instances: cube_count,
                },
            );
        }
        if sphere_count > 0 {
            encoder.draw(
                DrawCall {
                    pipeline: Pipeline::ShadowSphere,
                    shadow_bound: false,
                    mesh: Some(Mesh::Sphere),
                    count: SPHERE_INDEX_COUNT,
                    instances: sphere_count,
                },
            );
        }
        encoder.end_render_pass();
        assert(encoder@ =~= old(encoder)@ + shadow_pass_commands(cube_count, sphere_count));
    }
}

} // verus!
