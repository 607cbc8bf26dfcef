//! The renderer: all passes of a frame, in order.
//!
//! `Renderer` owns the target and one renderer for each pass. Rendering a
//! frame means laying out the per-frame data and recording the passes: shadow
//! map, sky, ground, cubes, spheres, tonemapping, and the copy into the
//! read-back buffer. The result is a `Frame`; whoever owns the device writes
//! its data into the buffers, replays its commands, and hands the mapped
//! read-back buffer to `OffscreenTarget::read_pixels`.

use vstd::prelude::*;
use crate::gpu::bytes::GpuData;
use crate::gpu::camera::{
    camera_uniform,
    Camera,
    CameraUniform,
    ASPECT_16_9,
    CAMERA_UNIFORM_SIZE,
    FIVE,
};
use crate::gpu::command::{
    draws_within,
    lemma_draws_within_concat,
    lemma_pass_labels_concat,
    lemma_pass_labels_of_pass,
    pass_labels,
    valid,
    Command,
    CommandEncoder,
    Pass,
};
use crate::gpu::ground_renderer::{
    ground_pass,
    ground_pass_commands,
    GroundRenderer,
    GroundUniform,
    GROUND_UNIFORM_SIZE,
};
use crate::gpu::instance_renderer::{
    cube_pass_commands,
    instance_records,
    shape_pass,
    uploaded,
    InstanceData,
    InstanceRenderer,
    ShadowUniform,
    Vertex,
    INSTANCE_STRIDE,
    MATRIX_UNIFORM_SIZE,
};
use crate::gpu::pipelines::{mesh_vertex_layout, VERTEX_STRIDE};
use crate::gpu::render_target::{OffscreenTarget, MAX_WIDTH};
use crate::gpu::shadow::{
    shadow_draws,
    shadow_pass,
    shadow_pass_commands,
    LightCameraUniform,
    ShadowRenderer,
};
use crate::gpu::sky_renderer::{sky_pass, sky_pass_commands, SkyRenderer};
use crate::gpu::sphere_renderer::{
    sphere_pass_commands,
    sphere_records,
    SphereInstanceData,
    SphereRenderer,
    SphereVertex,
};
use crate::gpu::tonemap::{
    tonemap_pass,
    tonemap_pass_commands,
    TonemapParams,
    TonemapRenderer,
    TONEMAP_UNIFORM_SIZE,
};
use crate::scalar::{Mat4, Vec3, Vec4, ZERO};
use crate::scene::builder::{cube_color, default_cube_color, ShapeType};

verus! {

/// Width of a grid cell on the ground: bit pattern of `5.0`.
pub const GRID_SCALE: u32 = FIVE;

/// The matrices of a frame. They are computed from the camera and the light
/// with trigonometry and division, outside this library.
#[derive(Clone, Copy, Debug, PartialEq, Eq)]
pub struct FrameMatrices {
    /// The camera's view matrix.
    pub view: Mat4,
    /// The camera's projection matrix.
    pub proj: Mat4,
    /// The product of projection and view.
    pub view_proj: Mat4,
    /// The light's view-projection matrix.
    pub light_view_proj: Mat4,
}

/// Everything the GPU needs for one frame.
#[derive(Debug, PartialEq, Eq)]
pub struct Frame {
    /// What to write at the start of the cube instance buffers, of the cube
    /// pass and of the shadow pass alike.
    pub cube_instances: Vec<InstanceData>,
    /// What to write at the start of the sphere instance buffers.
    pub sphere_instances: Vec<SphereInstanceData>,
    /// What to write into the camera buffer of each shaded pass.
    pub camera: CameraUniform,
    /// What to write into the ground buffer.
    pub ground: GroundUniform,
    /// What to write into the light buffer of the shadow pass.
    pub light: LightCameraUniform,
    /// What to write into the shadow buffer of each shaded pass.
    pub shadow: ShadowUniform,
    /// What to write into the tonemap buffer.
    pub tonemap: TonemapParams,
    /// What to record, in order, into one command buffer.
    pub commands: Vec<Command>,
}

/// A frame as plain values.
pub struct FrameView {
    pub cube_instances: Seq<InstanceData>,
    pub sphere_instances: Seq<SphereInstanceData>,
    pub camera: CameraUniform,
    pub ground: GroundUniform,
    pub light: LightCameraUniform,
    pub shadow: ShadowUniform,
    pub tonemap: TonemapParams,
    pub commands: Seq<Command>,
}

impl View for Frame {
    type V = FrameView;

    open spec fn view(&self) -> FrameView {
        FrameView {
            cube_instances: self.cube_instances@,
            sphere_instances: self.sphere_instances@,
            camera: self.camera,
            ground: self.ground,
            light: self.light,
            shadow: self.shadow,
            tonemap: self.tonemap,
            commands: self.commands@,
        }
    }
}

/// The commands of a frame with `cubes` cubes and `spheres` spheres in the
/// instance buffers, for renderers with shadows bound: the shadow map first,
/// because the shaded passes sample it; then the sky, which clears the colour
/// that the ground, the cubes and the spheres draw over; then tonemapping,
/// which samples that colour; and last the copy of what tonemapping wrote.
pub open spec fn frame_commands(target: OffscreenTarget, cubes: u32, spheres: u32) -> Seq<Command> {
    shadow_pass_commands(cubes, spheres) + sky_pass_commands() + ground_pass_commands(true)
        + cube_pass_commands(true, cubes) + sphere_pass_commands(true, spheres)
        + tonemap_pass_commands() + seq![Command::CopyTextureToBuffer(target.copy())]
}

/// A frame runs its passes in this order: shadow map, sky, ground, cubes,
/// spheres where there are any, tonemapping. The copy into the read-back
/// buffer is its last command.
pub proof fn lemma_frame_pass_order(target: OffscreenTarget, cubes: u32, spheres: u32)
    ensures
        pass_labels(frame_commands(target, cubes, spheres)) == if spheres == 0 {
            seq![Pass::Shadow, Pass::Sky, Pass::Ground, Pass::Cube, Pass::Tonemap]
        } else {
            seq![Pass::Shadow, Pass::Sky, Pass::Ground, Pass::Cube, Pass::Sphere, Pass::Tonemap]
        },
        frame_commands(target, cubes, spheres).last() == Command::CopyTextureToBuffer(
            target.copy(),
        ),
{
    let shadow = shadow_pass_commands(cubes, spheres);
    let sky = sky_pass_commands();
    let ground = ground_pass_commands(true);
    let cube = cube_pass_commands(true, cubes);
    let sphere = sphere_pass_commands(true, spheres);
    let tonemap = tonemap_pass_commands();
    let copy = seq![Command::CopyTextureToBuffer(target.copy())];
    assert(pass_labels(shadow) == seq![Pass::Shadow]) by {
        let draws = shadow_draws(ShapeType::Cube, cubes) + shadow_draws(
            ShapeType::Sphere,
            spheres,
        );
        lemma_pass_labels_of_pass(shadow_pass(), draws);
        assert(shadow =~= seq![Command::BeginRenderPass(shadow_pass())] + draws
            + seq![Command::EndRenderPass]);
    }
    assert(pass_labels(sky) == seq![Pass::Sky]) by {
        let draws = seq![sky[1]];
        lemma_pass_labels_of_pass(sky_pass(), draws);
        assert(sky =~= seq![Command::BeginRenderPass(sky_pass())] + draws
            + seq![Command::EndRenderPass]);
    }
    assert(pass_labels(ground) == seq![Pass::Ground]) by {
        let draws = seq![ground[1]];
        lemma_pass_labels_of_pass(ground_pass(), draws);
        assert(ground =~= seq![Command::BeginRenderPass(ground_pass())] + draws
            + seq![Command::EndRenderPass]);
    }
    assert(pass_labels(cube) == seq![Pass::Cube]) by {
        let draws = seq![cube[1]];
        lemma_pass_labels_of_pass(shape_pass(Pass::Cube), draws);
        assert(cube =~= seq![Command::BeginRenderPass(shape_pass(Pass::Cube))] + draws
            + seq![Command::EndRenderPass]);
    }
    assert(pass_labels(tonemap) == seq![Pass::Tonemap]) by {
        let draws = seq![tonemap[1]];
        lemma_pass_labels_of_pass(tonemap_pass(), draws);
        assert(tonemap =~= seq![Command::BeginRenderPass(tonemap_pass())] + draws
            + seq![Command::EndRenderPass]);
    }
    assert(pass_labels(sphere) == if spheres == 0 {
        Seq::<Pass>::empty()
    } else {
        seq![Pass::Sphere]
    }) by {
        if spheres != 0 {
            let draws = seq![sphere[1]];
            lemma_pass_labels_of_pass(shape_pass(Pass::Sphere), draws);
            assert(sphere =~= seq![Command::BeginRenderPass(shape_pass(Pass::Sphere))] + draws
                + seq![Command::EndRenderPass]);
        }
    }
    assert(pass_labels(copy) == Seq::<Pass>::empty()) by {
        assert(copy.drop_last() =~= Seq::<Command>::empty());
        assert(pass_labels(copy.drop_last()) =~= Seq::<Pass>::empty());
    }
    lemma_pass_labels_concat(shadow, sky);
    lemma_pass_labels_concat(shadow + sky, ground);
    lemma_pass_labels_concat(shadow + sky + ground, cube);
    lemma_pass_labels_concat(shadow + sky + ground + cube, sphere);
    lemma_pass_labels_concat(shadow + sky + ground + cube + sphere, tonemap);
    lemma_pass_labels_concat(shadow + sky + ground + cube + sphere + tonemap, copy);
    let labels = pass_labels(shadow) + pass_labels(sky) + pass_labels(ground) + pass_labels(cube)
        + pass_labels(sphere) + pass_labels(tonemap) + pass_labels(copy);
    assert(labels =~= if spheres == 0 {
        seq![Pass::Shadow, Pass::Sky, Pass::Ground, Pass::Cube, Pass::Tonemap]
    } else {
        seq![Pass::Shadow, Pass::Sky, Pass::Ground, Pass::Cube, Pass::Sphere, Pass::Tonemap]
    });
}

/// Where a frame counts no more cubes and no more spheres than the instance
/// buffers have room for, none of its draws reaches beyond what the buffers
/// hold.
pub proof fn lemma_frame_draws_fit(target: OffscreenTarget, capacity: u32, cubes: u32, spheres: u32)
    requires
        cubes <= capacity,
        spheres <= capacity,
    ensures
        draws_within(frame_commands(target, cubes, spheres), capacity),
{
    let shadow = shadow_pass_commands(cubes, spheres);
    let sky = sky_pass_commands();
    let ground = ground_pass_commands(true);
    let cube = cube_pass_commands(true, cubes);
    let sphere = sphere_pass_commands(true, spheres);
    let tonemap = tonemap_pass_commands();
    let copy = seq![Command::CopyTextureToBuffer(target.copy())];
    assert(draws_within(shadow, capacity)) by {
        let begin = seq![Command::BeginRenderPass(shadow_pass())];
        let cube_draws = shadow_draws(ShapeType::Cube, cubes);
        let sphere_draws = shadow_draws(ShapeType::Sphere, spheres);
        let end = seq![Command::EndRenderPass];
        lemma_draws_within_concat(begin, cube_draws, capacity);
        lemma_draws_within_concat(begin + cube_draws, sphere_draws, capacity);
        lemma_draws_within_concat(begin + cube_draws + sphere_draws, end, capacity);
    }
    lemma_draws_within_concat(shadow, sky, capacity);
    lemma_draws_within_concat(shadow + sky, ground, capacity);
    lemma_draws_within_concat(shadow + sky + ground, cube, capacity);
    lemma_draws_within_concat(shadow + sky + ground + cube, sphere, capacity);
    lemma_draws_within_concat(shadow + sky + ground + cube + sphere, tonemap, capacity);
    lemma_draws_within_concat(shadow + sky + ground + cube + sphere + tonemap, copy, capacity);
}

/// Every buffer is as large as what is written into it: a uniform buffer has
/// the size of its record, an instance buffer holds one record for each
/// instance it has room for, and the vertex layout finds position and normal
/// where a vertex's words put them.
pub proof fn lemma_buffers_fit_their_records()
    ensures
        CAMERA_UNIFORM_SIZE == 4 * CameraUniform::word_count(),
        MATRIX_UNIFORM_SIZE == 4 * ShadowUniform::word_count(),
        MATRIX_UNIFORM_SIZE == 4 * LightCameraUniform::word_count(),
        GROUND_UNIFORM_SIZE == 4 * GroundUniform::word_count(),
        TONEMAP_UNIFORM_SIZE == 4 * TonemapParams::word_count(),
        INSTANCE_STRIDE == 4 * InstanceData::word_count(),
        INSTANCE_STRIDE == 4 * SphereInstanceData::word_count(),
        VERTEX_STRIDE == 4 * Vertex::word_count(),
        VERTEX_STRIDE == 4 * SphereVertex::word_count(),
        mesh_vertex_layout().array_stride == VERTEX_STRIDE,
        mesh_vertex_layout().position.offset == 0,
        mesh_vertex_layout().normal.offset == 4 * 3,
{
}

/// Renders the bodies of a simulation off screen.
pub struct Renderer {
    target: OffscreenTarget,
    sky_renderer: SkyRenderer,
    ground_renderer: GroundRenderer,
    instance_renderer: InstanceRenderer,
    sphere_renderer: SphereRenderer,
    shadow_renderer: ShadowRenderer,
    tonemap_renderer: TonemapRenderer,
    camera: Camera,
    ground_y: u32,
    ground_size: u32,
}

impl Renderer {
    #[verifier::type_invariant]
    spec fn consistent(self) -> bool {
        &&& self.instance_renderer.max_instances == self.shadow_renderer.max_instances
        &&& self.sphere_renderer.max_instances == self.shadow_renderer.max_instances
        &&& self.instance_renderer.half_extent == self.shadow_renderer.half_extent
        &&& self.instance_renderer.shadow_bound
        &&& self.sphere_renderer.shadow_bound
        &&& self.ground_renderer.shadow_bound
        &&& self.ground_renderer.ground_y == self.ground_y
        &&& self.ground_renderer.ground_size == self.ground_size
    }

    /// The target that is rendered into.
    pub closed spec fn spec_target(&self) -> OffscreenTarget {
        self.target
    }

    /// The camera.
    pub closed spec fn spec_camera(&self) -> Camera {
        self.camera
    }

    /// Instances of each kind that a frame can hold.
    pub closed spec fn spec_max_instances(&self) -> u32 {
        self.shadow_renderer.max_instances
    }

    /// Half the edge of the cubes.
    pub closed spec fn spec_half_extent(&self) -> u32 {
        self.shadow_renderer.half_extent
    }

    /// Height of the ground plane.
    pub closed spec fn spec_ground_y(&self) -> u32 {
        self.ground_y
    }

    /// Half the edge of the ground plane.
    pub closed spec fn spec_ground_size(&self) -> u32 {
        self.ground_size
    }

    /// The tonemap parameters.
    pub closed spec fn spec_tonemap_params(&self) -> TonemapParams {
        self.tonemap_renderer.params
    }

    /// The direction towards the light.
    pub closed spec fn spec_light_direction(&self) -> Vec3 {
        self.shadow_renderer.light_dir
    }

    /// Half-width of the light's frustum.
    pub closed spec fn spec_frustum_size(&self) -> u32 {
        self.shadow_renderer.frustum_size
    }

    /// The frame of this renderer for the given bodies and matrices.
    pub open spec fn frame_for(
        &self,
        cube_positions: Seq<Vec3>,
        cube_rotations: Seq<Vec4>,
        cube_colors: Seq<Vec3>,
        sphere_positions: Seq<Vec3>,
        sphere_radii: Seq<u32>,
        sphere_colors: Seq<Vec3>,
        matrices: FrameMatrices,
    ) -> FrameView {
        let capacity = self.spec_max_instances();
        FrameView {
            cube_instances: instance_records(cube_positions, cube_rotations, cube_colors, capacity),
            sphere_instances: sphere_records(
                sphere_positions,
                sphere_radii,
                sphere_colors,
                capacity,
            ),
            camera: camera_uniform(
                self.spec_camera(),
                matrices.view,
                matrices.proj,
                matrices.view_proj,
            ),
            ground: GroundUniform {
                ground_y: self.spec_ground_y(),
                ground_size: self.spec_ground_size(),
                grid_scale: GRID_SCALE,
                _padding: ZERO,
            },
            light: LightCameraUniform { view_proj: matrices.light_view_proj },
            shadow: ShadowUniform { light_view_proj: matrices.light_view_proj },
            tonemap: self.spec_tonemap_params(),
            commands: frame_commands(
                self.spec_target(),
                uploaded(cube_positions.len() as int, capacity as int) as u32,
                uploaded(sphere_positions.len() as int, capacity as int) as u32,
            ),
        }
    }

    /// A renderer for images of `width` by `height` pixels with the aspect
    /// ratio `aspect`, with room for `max_instances` cubes of the given
    /// half-extent and as many spheres, over a ground plane at height
    /// `ground_y` that reaches `ground_size` to each side. Shadows are bound
    /// in every shaded pass.
    pub fn new(
        width: u32,
        height: u32,
        aspect: u32,
        max_instances: u32,
        half_extent: u32,
        ground_y: u32,
        ground_size: u32,
    ) -> (renderer: Renderer)
        requires
            width <= MAX_WIDTH,
        ensures
            renderer.spec_target().spec_width() == width,
            renderer.spec_target().spec_height() == height,
            renderer.spec_camera() == (Camera { aspect, ..crate::gpu::camera::default_camera() }),
            renderer.spec_max_instances() == max_instances,
            renderer.spec_half_extent() == half_extent,
            renderer.spec_ground_y() == ground_y,
            renderer.spec_ground_size() == ground_size,
            renderer.spec_tonemap_params() == TonemapParams::with_exposure(crate::scalar::ONE),
            renderer.spec_light_direction() == crate::gpu::shadow::default_light_direction(),
            renderer.spec_frustum_size() == crate::gpu::shadow::DEFAULT_FRUSTUM_SIZE,
    {
        let target = OffscreenTarget::new(width, height);
        let sky_renderer = SkyRenderer::new();
        let mut ground_renderer = GroundRenderer::new(ground_y, ground_size);
        let mut instance_renderer = InstanceRenderer::new(max_instances, half_extent);
        let mut sphere_renderer = SphereRenderer::new(max_instances);
        let shadow_renderer = ShadowRenderer::new(max_instances, half_extent);
        let tonemap_renderer = TonemapRenderer::new();
        ground_renderer.setup_shadow();
        instance_renderer.setup_shadow();
        sphere_renderer.setup_shadow();
        let mut camera = Camera::default();
        camera.set_aspect(aspect);
        Renderer {
            target,
            sky_renderer,
            ground_renderer,
            instance_renderer,
            sphere_renderer,
            shadow_renderer,
            tonemap_renderer,
            camera,
            ground_y,
            ground_size,
        }
    }

    /// A renderer for images of 1920 by 1080 pixels.
    pub fn new_1080p(max_instances: u32, half_extent: u32, ground_y: u32, ground_size: u32) -> (renderer:
        Renderer)
        ensures
            renderer.spec_target().spec_width() == 1920,
            renderer.spec_target().spec_height() == 1080,
            renderer.spec_camera() == crate::gpu::camera::default_camera(),
            renderer.spec_max_instances() == max_instances,
            renderer.spec_half_extent() == half_extent,
            renderer.spec_ground_y() == ground_y,
            renderer.spec_ground_size() == ground_size,
            renderer.spec_tonemap_params() == TonemapParams::with_exposure(crate::scalar::ONE),
            renderer.spec_light_direction() == crate::gpu::shadow::default_light_direction(),
            renderer.spec_frustum_size() == crate::gpu::shadow::DEFAULT_FRUSTUM_SIZE,
    {
        Self::new(1920, 1080, ASPECT_16_9, max_instances, half_extent, ground_y, ground_size)
    }

    /// A renderer for images of 3840 by 2160 pixels.
    pub fn new_4k(max_instances: u32, half_extent: u32, ground_y: u32, ground_size: u32) -> (renderer:
        Renderer)
        ensures
            renderer.spec_target().spec_width() == 3840,
            renderer.spec_target().spec_height() == 2160,
            renderer.spec_camera() == crate::gpu::camera::default_camera(),
            renderer.spec_max_instances() == max_instances,
            renderer.spec_half_extent() == half_extent,
            renderer.spec_ground_y() == ground_y,
            renderer.spec_ground_size() == ground_size,
            renderer.spec_tonemap_params() == TonemapParams::with_exposure(crate::scalar::ONE),
            renderer.spec_light_direction() == crate::gpu::shadow::default_light_direction(),
            renderer.spec_frustum_size() == crate::gpu::shadow::DEFAULT_FRUSTUM_SIZE,
    {
        Self::new(3840, 2160, ASPECT_16_9, max_instances, half_extent, ground_y, ground_size)
    }

    /// The target that is rendered into.
    pub fn target(&self) -> (target: &OffscreenTarget)
        ensures
            *target == self.spec_target(),
    {
        &self.target
    }

    /// The renderer of the sky pass. It holds no state.
    pub fn sky_renderer(&self) -> (r: &SkyRenderer)
        ensures
            *r == (SkyRenderer {  }),
    {
        &self.sky_renderer
    }

    /// The renderer of the ground pass. Its shadow group is bound.
    pub fn ground_renderer(&self) -> (r: &GroundRenderer)
        ensures
            r.ground_y == self.spec_ground_y(),
            r.ground_size == self.spec_ground_size(),
            r.shadow_bound,
    {
        proof {
            use_type_invariant(self);
        }
        &self.ground_renderer
    }

    /// The renderer of the cube pass. Its shadow group is bound.
    pub fn instance_renderer(&self) -> (r: &InstanceRenderer)
        ensures
            r.max_instances == self.spec_max_instances(),
            r.half_extent == self.spec_half_extent(),
            r.shadow_bound,
    {
        proof {
            use_type_invariant(self);
        }
        &self.instance_renderer
    }

    /// The renderer of the sphere pass. Its shadow group is bound.
    pub fn sphere_renderer(&self) -> (r: &SphereRenderer)
        ensures
            r.max_instances == self.spec_max_instances(),
            r.shadow_bound,
    {
        proof {
            use_type_invariant(self);
        }
        &self.sphere_renderer
    }

    /// The renderer of the shadow pass.
    pub fn shadow_renderer(&self) -> (r: &ShadowRenderer)
        ensures
            r.max_instances == self.spec_max_instances(),
            r.half_extent == self.spec_half_extent(),
            r.light_dir == self.spec_light_direction(),
            r.frustum_size == self.spec_frustum_size(),
    {
        &self.shadow_renderer
    }

    /// The renderer of the tonemap pass.
    pub fn tonemap_renderer(&self) -> (r: &TonemapRenderer)
        ensures
            r.params == self.spec_tonemap_params(),
    {
        &self.tonemap_renderer
    }

    /// The camera.
    pub fn camera(&self) -> (camera: &Camera)
        ensures
            *camera == self.spec_camera(),
    {
        &self.camera
    }

    /// Moves the camera to `eye` and points it at `target`. The frames
    /// rendered from now on use the new camera.
    pub fn set_camera(&mut self, eye: Vec3, target: Vec3)
        ensures
            final(self).spec_camera() == (Camera { eye, target, ..old(self).spec_camera() }),
            final(self).spec_target() == old(self).spec_target(),
            final(self).spec_max_instances() == old(self).spec_max_instances(),
            final(self).spec_half_extent() == old(self).spec_half_extent(),
            final(self).spec_ground_y() == old(self).spec_ground_y(),
            final(self).spec_ground_size() == old(self).spec_ground_size(),
            final(self).spec_tonemap_params() == old(self).spec_tonemap_params(),
            final(self).spec_light_direction() == old(self).spec_light_direction(),
            final(self).spec_frustum_size() == old(self).spec_frustum_size(),
    {
        proof {
            use_type_invariant(&*self);
        }
        self.camera.eye = eye;
        self.camera.target = target;
    }

    /// Sets the exposure of tonemapping.
    pub fn set_exposure(&mut self, exposure: u32)
        ensures
            final(self).spec_tonemap_params().exposure == exposure,
            final(self).spec_tonemap_params()._padding == old(self).spec_tonemap_params()._padding,
            final(self).spec_camera() == old(self).spec_camera(),
            final(self).spec_target() == old(self).spec_target(),
            final(self).spec_max_instances() == old(self).spec_max_instances(),
            final(self).spec_half_extent() == old(self).spec_half_extent(),
            final(self).spec_ground_y() == old(self).spec_ground_y(),
            final(self).spec_ground_size() == old(self).spec_ground_size(),
            final(self).spec_light_direction() == old(self).spec_light_direction(),
            final(self).spec_frustum_size() == old(self).spec_frustum_size(),
    {
        proof {
            use_type_invariant(&*self);
        }
        self.tonemap_renderer.params.exposure = exposure;
    }

    /// Sets the direction towards the light. `unit_dir` is the direction
    /// scaled to length one.
    pub fn set_light_direction(&mut self, unit_dir: Vec3)
        ensures
            final(self).spec_light_direction() == unit_dir,
            final(self).spec_frustum_size() == old(self).spec_frustum_size(),
            final(self).spec_camera() == old(self).spec_camera(),
            final(self).spec_target() == old(self).spec_target(),
            final(self).spec_max_instances() == old(self).spec_max_instances(),
            final(self).spec_half_extent() == old(self).spec_half_extent(),
            final(self).spec_ground_y() == old(self).spec_ground_y(),
            final(self).spec_ground_size() == old(self).spec_ground_size(),
            final(self).spec_tonemap_params() == old(self).spec_tonemap_params(),
    {
        proof {
            use_type_invariant(&*self);
        }
        self.shadow_renderer.light_dir = unit_dir;
    }

    /// Sets the half-width of the area that casts and receives shadows.
    pub fn set_frustum_size(&mut self, size: u32)
        ensures
            final(self).spec_frustum_size() == size,
            final(self).spec_light_direction() == old(self).spec_light_direction(),
            final(self).spec_camera() == old(self).spec_camera(),
            final(self).spec_target() == old(self).spec_target(),
            final(self).spec_max_instances() == old(self).spec_max_instances(),
            final(self).spec_half_extent() == old(self).spec_half_extent(),
            final(self).spec_ground_y() == old(self).spec_ground_y(),
            final(self).spec_ground_size() == old(self).spec_ground_size(),
            final(self).spec_tonemap_params() == old(self).spec_tonemap_params(),
    {
        proof {
            use_type_invariant(&*self);
        }
        self.shadow_renderer.frustum_size = size;
    }

    /// Renders a frame of cubes only, all in the default colour. The frame is
    /// the one that `render_frame_with_shapes` gives for these cubes in that
    /// colour and no spheres.
    pub fn render_frame(&self, positions: &[Vec3], rotations: &[Vec4], matrices: &FrameMatrices) -> (frame:
        Frame)
        requires
            uploaded(positions@.len() as int, self.spec_max_instances() as int)
                <= rotations@.len(),
        ensures
            frame@ == self.frame_for(
                positions@,
                rotations@,
                Seq::new(positions@.len(), |i: int| default_cube_color()),
                Seq::empty(),
                Seq::empty(),
                Seq::empty(),
                *matrices,
            ),
            valid(frame.commands@),
    {
        let mut colors: Vec<Vec3> = Vec::with_capacity(positions.len());
        let mut i: usize = 0;
        while i < positions.len()
            invariant
                i <= positions@.len(),
                colors@.len() == i,
                forall|k: int| 0 <= k < i ==> colors@[k] == default_cube_color(),
            decreases positions@.len() - i,
        {
            colors.push(cube_color());
            i = i + 1;
        }
        assert(colors@ =~= Seq::new(positions@.len(), |i: int| default_cube_color()));
        let no_positions: Vec<Vec3> = Vec::new();
        let no_radii: Vec<u32> = Vec::new();
        let no_colors: Vec<Vec3> = Vec::new();
        self.render_frame_with_shapes(
            positions,
            rotations,
            colors.as_slice(),
            no_positions.as_slice(),
            no_radii.as_slice(),
            no_colors.as_slice(),
            matrices,
        )
    }

    /// Renders a frame of cubes and spheres: lays out the instance records
    /// and the uniforms, and records the passes in order. Bodies beyond the
    /// renderer's capacity are dropped. The renderer is left as it was, so the
    /// same bodies and matrices give the same frame again.
    pub fn render_frame_with_shapes(
        &self,
        cube_positions: &[Vec3],
        cube_rotations: &[Vec4],
        cube_colors: &[Vec3],
        sphere_positions: &[Vec3],
        sphere_radii: &[u32],
        sphere_colors: &[Vec3],
        matrices: &FrameMatrices,
    ) -> (frame: Frame)
        requires
            uploaded(cube_positions@.len() as int, self.spec_max_instances() as int)
                <= cube_rotations@.len(),
            uploaded(cube_positions@.len() as int, self.spec_max_instances() as int)
                <= cube_colors@.len(),
            uploaded(sphere_positions@.len() as int, self.spec_max_instances() as int)
                <= sphere_radii@.len(),
            uploaded(sphere_positions@.len() as int, self.spec_max_instances() as int)
                <= sphere_colors@.len(),
        ensures
            frame@ == self.frame_for(
                cube_positions@,
                cube_rotations@,
                cube_colors@,
                sphere_positions@,
                sphere_radii@,
                sphere_colors@,
                *matrices,
            ),
            valid(frame.commands@),
            frame.cube_instances@.len() <= self.spec_max_instances(),
            frame.sphere_instances@.len() <= self.spec_max_instances(),
            draws_within(frame.commands@, self.spec_max_instances()),
    {
        proof {
            use_type_invariant(self);
        }
        let cube_instances = self.instance_renderer.upload_instances(
            cube_positions,
            cube_rotations,
            cube_colors,
        );
        let sphere_instances = self.sphere_renderer.upload_instances(
            sphere_positions,
            sphere_radii,
            sphere_colors,
        );
        let cube_count: u32 = cube_instances.len() as u32;
        let sphere_count: u32 = sphere_instances.len() as u32;

        let camera = self.camera.uniform(matrices.view, matrices.proj, matrices.view_proj);
        let ground = self.ground_renderer.update_ground(self.ground_y, self.ground_size, GRID_SCALE);
        let light = self.shadow_renderer.update_light_camera(matrices.light_view_proj);
        let shadow = self.instance_renderer.update_shadow(matrices.light_view_proj);

        let mut encoder = CommandEncoder::new();
        self.shadow_renderer.render(&mut encoder, cube_count, sphere_count);
        self.sky_renderer.render(&mut encoder);
        self.ground_renderer.render(&mut encoder);
        self.instance_renderer.render(&mut encoder, cube_count);
        self.sphere_renderer.render(&mut encoder, sphere_count);
        let tonemap = self.tonemap_renderer.render(&mut encoder);
        self.target.copy_to_buffer(&mut encoder);
        proof {
            assert(encoder@ =~= frame_commands(self.target, cube_count, sphere_count));
            lemma_frame_draws_fit(
                self.target,
                self.shadow_renderer.max_instances,
                cube_count,
                sphere_count,
            );
        }
        let commands = encoder.finish();
        Frame {
            cube_instances,
            sphere_instances,
            camera,
            ground,
            light,
            shadow,
            tonemap,
            commands,
        }
    }

    /// Width and height of the image, in pixels.
    pub fn dimensions(&self) -> (size: (u32, u32))
        ensures
            size == (self.spec_target().spec_width(), self.spec_target().spec_height()),
    {
        (self.target.width(), self.target.height())
    }
}

} // verus!
