//! The ground plane, with its grid and the shadows that fall on it.

use vstd::prelude::*;
use crate::gpu::bytes::GpuData;
use crate::gpu::camera::{camera_uniform, Camera, CameraUniform, CAMERA_UNIFORM_SIZE};
use crate::gpu::command::{
    scene_ready,
    ColorAttachment,
    ColorTarget,
    Command,
    CommandEncoder,
    DepthAttachment,
    DepthTarget,
    DrawCall,
    EncoderState,
    LoadOp,
    Pass,
    Pipeline,
    RenderPassDescriptor,
    Written,
};
use crate::gpu::descriptor::{
    make_uniform_buffer,
    shadow_bind_group_layout,
    shadow_bindings,
    uniform_buffer,
    BindGroupLayoutEntry,
    BindingType,
    BufferDescriptor,
    RenderPipelineDescriptor,
    ShaderStages,
};
use crate::gpu::instance_renderer::{ShadowUniform, MATRIX_UNIFORM_SIZE};
use crate::gpu::pipelines::{describe_pipeline, pipeline_descriptor};
use crate::scalar::{Mat4, ZERO};

verus! {

/// Bytes of the ground uniform block.
pub const GROUND_UNIFORM_SIZE: u64 = 16;

/// Vertices of the two triangles of the ground quad.
pub const GROUND_VERTEX_COUNT: u32 = 6;

/// Where the ground lies, how far it reaches, and how wide a grid cell is.
#[derive(Clone, Copy, Debug, PartialEq, Eq, Structural)]
pub struct GroundUniform {
    pub ground_y: u32,
    pub ground_size: u32,
    pub grid_scale: u32,
    pub _padding: u32,
}

impl GpuData for GroundUniform {
    open spec fn word_count() -> nat {
        4
    }

    open spec fn words(&self) -> Seq<u32> {
        seq![self.ground_y, self.ground_size, self.grid_scale, self._padding]
    }

    proof fn lemma_word_count(&self) {
    }

    fn write_words(&self, out: &mut Vec<u32>) {
        out.push(self.ground_y);
        out.push(self.ground_size);
        out.push(self.grid_scale);
        out.push(self._padding);
        assert(out@ =~= old(out)@ + self.words());
    }
}

/// The bindings of the ground pass: the camera and the ground's parameters,
/// both for both stages.
pub open spec fn ground_bindings() -> Seq<BindGroupLayoutEntry> {
    seq![
        BindGroupLayoutEntry {
            binding: 0,
            visibility: ShaderStages { vertex: true, fragment: true },
            ty: BindingType::UniformBuffer,
        },
        BindGroupLayoutEntry {
            binding: 1,
            visibility: ShaderStages { vertex: true, fragment: true },
            ty: BindingType::UniformBuffer,
        },
    ]
}

/// The ground pass keeps the sky's colour and starts the scene's depth from
/// the far plane.
pub open spec fn ground_pass() -> RenderPassDescriptor {
    RenderPassDescriptor {
        label: Pass::Ground,
        color: Some(ColorAttachment { target: ColorTarget::Hdr, load: LoadOp::Load }),
        depth: Some(DepthAttachment { target: DepthTarget::Scene, load: LoadOp::Clear }),
    }
}

/// The commands of the ground pass.
pub open spec fn ground_pass_commands(shadow_bound: bool) -> Seq<Command> {
    seq![
        Command::BeginRenderPass(ground_pass()),
        Command::Draw(
            DrawCall {
                pipeline: Pipeline::Ground,
                shadow_bound,
                mesh: None,
                count: GROUND_VERTEX_COUNT,
                instances: 1,
            },
        ),
        Command::EndRenderPass,
    ]
}

/// Draws the ground plane.
#[derive(Clone, Copy, Debug, PartialEq, Eq)]
pub struct GroundRenderer {
    /// Height of the plane, as a single-precision bit pattern.
    pub ground_y: u32,
    /// Half the plane's edge, as a single-precision bit pattern.
    pub ground_size: u32,
    /// Whether the bind group that holds the shadow map has been set up.
    pub shadow_bound: bool,
}

impl GroundRenderer {
    /// A ground renderer for a plane at height `ground_y` that reaches
    /// `ground_size` to each side. It renders unshadowed until `setup_shadow`
    /// is called.
    pub fn new(ground_y: u32, ground_size: u32) -> (r: GroundRenderer)
        ensures
            r.ground_y == ground_y,
            r.ground_size == ground_size,
            !r.shadow_bound,
    {
        GroundRenderer { ground_y, ground_size, shadow_bound: false }
    }

    /// The buffer that holds the camera uniform.
    pub fn camera_buffer(&self) -> (d: BufferDescriptor)
        ensures
            d == uniform_buffer(CAMERA_UNIFORM_SIZE),
    {
        make_uniform_buffer(CAMERA_UNIFORM_SIZE)
    }

    /// The buffer that holds the ground's parameters.
    pub fn ground_buffer(&self) -> (d: BufferDescriptor)
        ensures
            d == uniform_buffer(GROUND_UNIFORM_SIZE),
    {
        make_uniform_buffer(GROUND_UNIFORM_SIZE)
    }

    /// The buffer that holds the light's matrix for shadow lookups.
    pub fn shadow_uniform_buffer(&self) -> (d: BufferDescriptor)
        ensures
            d == uniform_buffer(MATRIX_UNIFORM_SIZE),
    {
        make_uniform_buffer(MATRIX_UNIFORM_SIZE)
    }

    /// The layout of the first bind group: camera and ground parameters.
    pub fn bind_group_layout(&self) -> (entries: Vec<BindGroupLayoutEntry>)
        ensures
            entries@ == ground_bindings(),
    {
        let mut entries: Vec<BindGroupLayoutEntry> = Vec::new();
        entries.push(
            BindGroupLayoutEntry {
                binding: 0,
                visibility: ShaderStages { vertex: true, fragment: true },
                ty: BindingType::UniformBuffer,
            },
        );
        entries.push(
            BindGroupLayoutEntry {
                binding: 1,
                visibility: ShaderStages { vertex: true, fragment: true },
                ty: BindingType::UniformBuffer,
            },
        );
        entries
    }

    /// The layout of the second bind group: the shadow map.
    pub fn shadow_bind_group_layout(&self) -> (entries: Vec<BindGroupLayoutEntry>)
        ensures
            entries@ == shadow_bindings(),
    {
        shadow_bind_group_layout()
    }

    /// The pipeline that draws the ground.
    pub fn pipeline(&self) -> (d: RenderPipelineDescriptor)
        ensures
            d == pipeline_descriptor(Pipeline::Ground),
    {
        describe_pipeline(Pipeline::Ground)
    }

    /// The uniform through which the ground shader reads the camera, given
    /// the camera's view matrix, its projection matrix and their product.
    pub fn update_camera(&self, camera: &Camera, view: Mat4, proj: Mat4, view_proj: Mat4) -> (u:
        CameraUniform)
        ensures
            u == camera_uniform(*camera, view, proj, view_proj),
    {
        camera.uniform(view, proj, view_proj)
    }

    /// The uniform that places the ground and scales its grid.
    pub fn update_ground(&self, ground_y: u32, ground_size: u32, grid_scale: u32) -> (u:
        GroundUniform)
        ensures
            u == (GroundUniform { ground_y, ground_size, grid_scale, _padding: ZERO }),
    {
        GroundUniform { ground_y, ground_size, grid_scale, _padding: ZERO }
    }

    /// Binds the shadow map; from now on shadows fall on the ground.
    pub fn setup_shadow(&mut self)
        ensures
            final(self).shadow_bound,
            final(self).ground_y == old(self).ground_y,
            final(self).ground_size == old(self).ground_size,
    {
        self.shadow_bound = true;
    }

    /// The uniform through which the ground shader reads the light's matrix.
    pub fn update_shadow(&self, light_view_proj: Mat4) -> (u: ShadowUniform)
        ensures
            u.light_view_proj == light_view_proj,
    {
        ShadowUniform { light_view_proj }
    }

    /// Records the ground pass: the quad is drawn over the sky, and the
    /// scene's depth is cleared, tested and written, so that the shapes drawn
    /// later hide the ground and are hidden by it as they should.
    pub fn render(&self, encoder: &mut CommandEncoder)
        requires
            scene_ready(old(encoder).state(), false, self.shadow_bound),
            !old(encoder).state().written.scene_depth,
        ensures
            final(encoder)@ == old(encoder)@ + ground_pass_commands(self.shadow_bound),
            final(encoder).state() == (EncoderState {
                open: None,
                written: Written { scene_depth: true, ..old(encoder).state().written },
            }),
    {
        encoder.begin_render_pass(
            RenderPassDescriptor {
                label: Pass::Ground,
                color: Some(ColorAttachment { target: ColorTarget::Hdr, load: LoadOp::Load }),
                depth: Some(DepthAttachment { target: DepthTarget::Scene, load: LoadOp::Clear }),
            },
        );
        encoder.draw(
            DrawCall {
                pipeline: Pipeline::Ground,
                shadow_bound: self.shadow_bound,
                mesh: None,
                count: GROUND_VERTEX_COUNT,
                instances: 1,
            },
        );
        encoder.end_render_pass();
        assert(encoder@ =~= old(encoder)@ + ground_pass_commands(self.shadow_bound));
    }

    /// Height of the plane.
    pub fn ground_y(&self) -> (y: u32)
        ensures
            y == self.ground_y,
    {
        self.ground_y
    }

    /// Half the plane's edge.
    pub fn ground_size(&self) -> (size: u32)
        ensures
            size == self.ground_size,
    {
        self.ground_size
    }
}

} // verus!
