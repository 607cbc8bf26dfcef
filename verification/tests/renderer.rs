use physobx_core::gpu::camera::{Camera, CameraUniform};
use physobx_core::gpu::command::{
    ColorAttachment, ColorTarget, Command, DepthAttachment, DepthTarget, DrawCall, LoadOp, Mesh,
    Pass, Pipeline, RenderPassDescriptor, TextureCopy,
};
use physobx_core::gpu::ground_renderer::GroundUniform;
use physobx_core::gpu::instance_renderer::{InstanceData, ShadowUniform};
use physobx_core::gpu::renderer::{Frame, FrameMatrices, Renderer};
use physobx_core::gpu::shadow::LightCameraUniform;
use physobx_core::gpu::sphere_renderer::SphereInstanceData;
use physobx_core::gpu::tonemap::TonemapParams;

fn bits3(v: [f32; 3]) -> [u32; 3] {
    [v[0].to_bits(), v[1].to_bits(), v[2].to_bits()]
}

fn matrix(start: u32) -> [[u32; 4]; 4] {
    let mut m = [[0u32; 4]; 4];
    for c in 0..4 {
        for r in 0..4 {
            m[c][r] = start + (4 * c + r) as u32;
        }
    }
    m
}

fn matrices() -> FrameMatrices {
    FrameMatrices { view: matrix(100), proj: matrix(200), view_proj: matrix(300), light_view_proj: matrix(400) }
}

fn renderer(max_instances: u32) -> Renderer {
    Renderer::new_1080p(max_instances, 0.5f32.to_bits(), (-1.0f32).to_bits(), 50.0f32.to_bits())
}

fn begin(label: Pass, color: Option<(ColorTarget, LoadOp)>, depth: Option<(DepthTarget, LoadOp)>) -> Command {
    Command::BeginRenderPass(RenderPassDescriptor {
        label,
        color: color.map(|(target, load)| ColorAttachment { target, load }),
        depth: depth.map(|(target, load)| DepthAttachment { target, load }),
    })
}

fn draw(pipeline: Pipeline, shadow_bound: bool, mesh: Option<Mesh>, count: u32, instances: u32) -> Command {
    Command::Draw(DrawCall { pipeline, shadow_bound, mesh, count, instances })
}

fn copy_1080p() -> Command {
    Command::CopyTextureToBuffer(TextureCopy {
        source: ColorTarget::Ldr,
        width: 1920,
        height: 1080,
        bytes_per_row: 7680,
        rows_per_image: 1080,
        buffer_size: 7680 * 1080,
    })
}

fn one_cube_frame(r: &Renderer) -> Frame {
    r.render_frame(&[bits3([0.0, 0.0, 0.0])], &[[0, 0, 0, 1.0f32.to_bits()]], &matrices())
}

#[test]
fn renderer_starts_as_configured() {
    let r = renderer(1000);
    assert_eq!(r.dimensions(), (1920, 1080));
    assert_eq!(r.target().padded_bytes_per_row(), 7680);
    assert_eq!(*r.camera(), Camera::default());
    assert_eq!(r.instance_renderer().max_instances, 1000);
    assert_eq!(r.sphere_renderer().max_instances, 1000);
    assert_eq!(r.shadow_renderer().max_instances, 1000);
    assert_eq!(r.instance_renderer().half_extent, 0.5f32.to_bits());
    assert_eq!(r.ground_renderer().ground_y(), (-1.0f32).to_bits());
    assert_eq!(r.ground_renderer().ground_size(), 50.0f32.to_bits());
    assert!(r.instance_renderer().shadow_bound);
    assert!(r.sphere_renderer().shadow_bound);
    assert!(r.ground_renderer().shadow_bound);
    assert_eq!(r.tonemap_renderer().params.exposure, 1.0f32.to_bits());
    assert_eq!(Renderer::new_4k(1, 0, 0, 0).dimensions(), (3840, 2160));
}

#[test]
fn renderer_takes_the_aspect_it_is_given() {
    let r = Renderer::new(800, 600, (800.0f32 / 600.0).to_bits(), 10, 0, 0, 0);
    assert_eq!(r.dimensions(), (800, 600));
    assert_eq!(r.camera().aspect, (800.0f32 / 600.0).to_bits());
    assert_eq!(r.camera().eye, Camera::default().eye);
    assert_eq!(renderer(1).camera().aspect, (1920.0f32 / 1080.0).to_bits());
    assert_eq!(Renderer::new_4k(1, 0, 0, 0).camera().aspect, (3840.0f32 / 2160.0).to_bits());
}

#[test]
fn a_frame_records_the_passes_in_order() {
    let r = renderer(1000);
    let positions = vec![bits3([0.0, 0.0, 0.0]); 3];
    let rotations = vec![[0, 0, 0, 1.0f32.to_bits()]; 3];
    let colors = vec![bits3([1.0, 0.0, 0.0]); 3];
    let centres = vec![bits3([0.0, 2.0, 0.0]); 2];
    let radii = vec![0.5f32.to_bits(); 2];
    let sphere_colors = vec![bits3([0.0, 0.0, 1.0]); 2];
    let frame = r.render_frame_with_shapes(
        &positions, &rotations, &colors, &centres, &radii, &sphere_colors, &matrices(),
    );
    let hdr_load = Some((ColorTarget::Hdr, LoadOp::Load));
    let depth_load = Some((DepthTarget::Scene, LoadOp::Load));
    assert_eq!(
        frame.commands,
        vec![
            begin(Pass::Shadow, None, Some((DepthTarget::ShadowMap, LoadOp::Clear))),
            draw(Pipeline::ShadowCube, false, Some(Mesh::Cube), 36, 3),
            draw(Pipeline::ShadowSphere, false, Some(Mesh::Sphere), 1152, 2),
            Command::EndRenderPass,
            begin(Pass::Sky, Some((ColorTarget::Hdr, LoadOp::Clear)), None),
            draw(Pipeline::Sky, false, None, 3, 1),
            Command::EndRenderPass,
            begin(Pass::Ground, hdr_load, Some((DepthTarget::Scene, LoadOp::Clear))),
            draw(Pipeline::Ground, true, None, 6, 1),
            Command::EndRenderPass,
            begin(Pass::Cube, hdr_load, depth_load),
            draw(Pipeline::Cube, true, Some(Mesh::Cube), 36, 3),
            Command::EndRenderPass,
            begin(Pass::Sphere, hdr_load, depth_load),
            draw(Pipeline::Sphere, true, Some(Mesh::Sphere), 1152, 2),
            Command::EndRenderPass,
            begin(Pass::Tonemap, Some((ColorTarget::Ldr, LoadOp::Clear)), None),
            draw(Pipeline::Tonemap, false, None, 3, 1),
            Command::EndRenderPass,
            copy_1080p(),
        ]
    );
}

#[test]
fn a_frame_carries_the_data_of_every_buffer() {
    let r = renderer(1000);
    let p = bits3([1.0, 2.0, 3.0]);
    let q = [0, 0, 0, 1.0f32.to_bits()];
    let c = bits3([0.25, 0.5, 0.75]);
    let s = bits3([4.0, 5.0, 6.0]);
    let frame = r.render_frame_with_shapes(&[p], &[q], &[c], &[s], &[2.0f32.to_bits()], &[c], &matrices());
    assert_eq!(
        frame.cube_instances,
        vec![InstanceData { position: p, _padding: 0, rotation: q, color: c, _padding2: 0 }]
    );
    assert_eq!(
        frame.sphere_instances,
        vec![SphereInstanceData {
            position: s,
            radius: 2.0f32.to_bits(),
            rotation: [0, 0, 0, 1.0f32.to_bits()],
            color: c,
            _padding: 0,
        }]
    );
    assert_eq!(
        frame.camera,
        CameraUniform {
            view_proj: matrix(300),
            view: matrix(100),
            proj: matrix(200),
            eye_position: [0.0f32.to_bits(), 20.0f32.to_bits(), 50.0f32.to_bits(), 1.0f32.to_bits()],
        }
    );
    assert_eq!(
        frame.ground,
        GroundUniform {
            ground_y: (-1.0f32).to_bits(),
            ground_size: 50.0f32.to_bits(),
            grid_scale: 5.0f32.to_bits(),
            _padding: 0,
        }
    );
    assert_eq!(frame.tonemap, TonemapParams { exposure: 1.0f32.to_bits(), _padding: [0, 0, 0] });
}

#[test]
fn shadow_pass_and_shaded_passes_get_the_same_light_matrix() {
    let frame = one_cube_frame(&renderer(10));
    assert_eq!(frame.light, LightCameraUniform { view_proj: matrix(400) });
    assert_eq!(frame.shadow, ShadowUniform { light_view_proj: matrix(400) });
    assert_eq!(frame.light.view_proj, frame.shadow.light_view_proj);
}

#[test]
fn a_frame_without_bodies_still_draws_sky_and_ground() {
    let r = renderer(10);
    let frame = r.render_frame_with_shapes(&[], &[], &[], &[], &[], &[], &matrices());
    assert!(frame.cube_instances.is_empty());
    assert!(frame.sphere_instances.is_empty());
    let hdr_load = Some((ColorTarget::Hdr, LoadOp::Load));
    assert_eq!(
        frame.commands,
        vec![
            begin(Pass::Shadow, None, Some((DepthTarget::ShadowMap, LoadOp::Clear))),
            Command::EndRenderPass,
            begin(Pass::Sky, Some((ColorTarget::Hdr, LoadOp::Clear)), None),
            draw(Pipeline::Sky, false, None, 3, 1),
            Command::EndRenderPass,
            begin(Pass::Ground, hdr_load, Some((DepthTarget::Scene, LoadOp::Clear))),
            draw(Pipeline::Ground, true, None, 6, 1),
            Command::EndRenderPass,
            begin(Pass::Cube, hdr_load, Some((DepthTarget::Scene, LoadOp::Load))),
            draw(Pipeline::Cube, true, Some(Mesh::Cube), 36, 0),
            Command::EndRenderPass,
            begin(Pass::Tonemap, Some((ColorTarget::Ldr, LoadOp::Clear)), None),
            draw(Pipeline::Tonemap, false, None, 3, 1),
            Command::EndRenderPass,
            copy_1080p(),
        ]
    );
}

#[test]
fn bodies_beyond_the_capacity_are_dropped_from_data_and_draws() {
    let r = renderer(4);
    let positions = vec![bits3([0.0, 0.0, 0.0]); 9];
    let rotations = vec![[0, 0, 0, 1.0f32.to_bits()]; 9];
    let colors = vec![bits3([1.0, 0.0, 0.0]); 9];
    let radii = vec![1.0f32.to_bits(); 9];
    let frame = r.render_frame_with_shapes(
        &positions, &rotations, &colors, &positions, &radii, &colors, &matrices(),
    );
    assert_eq!(frame.cube_instances.len(), 4);
    assert_eq!(frame.sphere_instances.len(), 4);
    assert_eq!(frame.commands[1], draw(Pipeline::ShadowCube, false, Some(Mesh::Cube), 36, 4));
    assert_eq!(frame.commands[2], draw(Pipeline::ShadowSphere, false, Some(Mesh::Sphere), 1152, 4));
    assert_eq!(frame.commands[11], draw(Pipeline::Cube, true, Some(Mesh::Cube), 36, 4));
    assert_eq!(frame.commands[14], draw(Pipeline::Sphere, true, Some(Mesh::Sphere), 1152, 4));
}

#[test]
fn rendering_twice_gives_the_same_frame() {
    let r = renderer(100);
    let first = one_cube_frame(&r);
    let second = one_cube_frame(&r);
    assert_eq!(first, second);
}

#[test]
fn cubes_only_is_cubes_in_the_default_colour_and_no_spheres() {
    let r = renderer(100);
    let positions = vec![bits3([0.0, 1.0, 0.0]), bits3([2.0, 1.0, 0.0])];
    let rotations = vec![[0, 0, 0, 1.0f32.to_bits()]; 2];
    let terracotta = vec![bits3([0.82, 0.32, 0.12]); 2];
    assert_eq!(
        r.render_frame(&positions, &rotations, &matrices()),
        r.render_frame_with_shapes(&positions, &rotations, &terracotta, &[], &[], &[], &matrices())
    );
}

#[test]
fn the_camera_moves_from_the_next_frame_on() {
    let mut r = renderer(100);
    let before = one_cube_frame(&r);
    r.set_camera(bits3([1.0, 2.0, 3.0]), bits3([4.0, 5.0, 6.0]));
    assert_eq!(r.camera().eye, bits3([1.0, 2.0, 3.0]));
    assert_eq!(r.camera().target, bits3([4.0, 5.0, 6.0]));
    assert_eq!(r.camera().up, Camera::default().up);
    let after = one_cube_frame(&r);
    assert_eq!(before.camera.eye_position[0], 0.0f32.to_bits());
    assert_eq!(
        after.camera.eye_position,
        [1.0f32.to_bits(), 2.0f32.to_bits(), 3.0f32.to_bits(), 1.0f32.to_bits()]
    );
    assert_eq!(before.commands, after.commands);
}

#[test]
fn exposure_and_light_are_tunable() {
    let mut r = renderer(100);
    r.set_exposure(0.5f32.to_bits());
    r.set_light_direction([1, 2, 3]);
    r.set_frustum_size(30.0f32.to_bits());
    assert_eq!(one_cube_frame(&r).tonemap.exposure, 0.5f32.to_bits());
    assert_eq!(r.shadow_renderer().light_dir, [1, 2, 3]);
    assert_eq!(r.shadow_renderer().frustum_size, 30.0f32.to_bits());
    assert_eq!(r.instance_renderer().max_instances, 100);
}

#[test]
fn one_cube_at_the_origin_in_1080p() {
    let r = renderer(1000);
    let frame = one_cube_frame(&r);
    assert_eq!(frame.cube_instances.len(), 1);
    assert_eq!(frame.cube_instances[0].color, bits3([0.82, 0.32, 0.12]));
    assert_eq!(frame.commands.len(), 16);
    assert_eq!(frame.commands[15], copy_1080p());
    let staging = vec![0u8; r.target().output_buffer().size as usize];
    assert_eq!(r.target().read_pixels(&staging).len(), 8_294_400);
}
