use physobx_core::gpu::command::Pipeline;
use physobx_core::gpu::descriptor::{
    make_staging_buffer, make_storage_buffer, make_uniform_buffer, shadow_bind_group_layout,
    BindGroupLayoutEntry, BindingType, BlendState, CompareFunction, DepthBiasState, EntryPoint,
    Face, FrontFace, SamplerDescriptor, Shader, ShaderStages, TextureFormat, VertexFormat,
};
use physobx_core::gpu::ground_renderer::GroundRenderer;
use physobx_core::gpu::instance_renderer::InstanceRenderer;
use physobx_core::gpu::pipelines::{
    describe_pipeline, make_mesh_vertex_layout, HDR_FORMAT, LDR_FORMAT, VERTEX_STRIDE,
};
use physobx_core::gpu::shadow::ShadowRenderer;
use physobx_core::gpu::sky_renderer::SkyRenderer;
use physobx_core::gpu::sphere_renderer::SphereRenderer;
use physobx_core::gpu::tonemap::TonemapRenderer;
use physobx_core::scene::builder::ShapeType;

fn entry(binding: u32, vertex: bool, fragment: bool, ty: BindingType) -> BindGroupLayoutEntry {
    BindGroupLayoutEntry { binding, visibility: ShaderStages { vertex, fragment }, ty }
}

#[test]
fn formats_are_hdr_for_the_scene_and_8_bit_for_the_output() {
    assert_eq!(HDR_FORMAT, TextureFormat::Rgba16Float);
    assert_eq!(LDR_FORMAT, TextureFormat::Rgba8UnormSrgb);
    assert_eq!(TextureFormat::Rgba16Float.bytes_per_texel(), 8);
    assert_eq!(TextureFormat::Rgba8UnormSrgb.bytes_per_texel(), 4);
    assert_eq!(TextureFormat::Depth32Float.bytes_per_texel(), 4);
}

#[test]
fn buffers_are_made_for_their_use() {
    let uniform = make_uniform_buffer(64);
    assert_eq!(uniform.size, 64);
    assert!(uniform.usage.uniform && uniform.usage.copy_dst);
    assert!(!uniform.usage.storage && !uniform.usage.map_read && !uniform.usage.vertex && !uniform.usage.index);
    let storage = make_storage_buffer(4800);
    assert_eq!(storage.size, 4800);
    assert!(storage.usage.storage && storage.usage.copy_dst);
    assert!(!storage.usage.uniform && !storage.usage.map_read);
    let staging = make_staging_buffer(512);
    assert_eq!(staging.size, 512);
    assert!(staging.usage.map_read && staging.usage.copy_dst);
    assert!(!staging.usage.uniform && !staging.usage.storage);
}

#[test]
fn entry_points_have_their_names() {
    assert_eq!(EntryPoint::VsMain.name(), "vs_main");
    assert_eq!(EntryPoint::FsMain.name(), "fs_main");
    assert_eq!(EntryPoint::VsCube.name(), "vs_cube");
    assert_eq!(EntryPoint::VsSphere.name(), "vs_sphere");
}

#[test]
fn mesh_vertices_are_position_then_normal() {
    let layout = make_mesh_vertex_layout();
    assert_eq!(layout.array_stride, 24);
    assert_eq!(VERTEX_STRIDE, 24);
    assert_eq!((layout.position.shader_location, layout.position.offset), (0, 0));
    assert_eq!((layout.normal.shader_location, layout.normal.offset), (1, 12));
    assert_eq!(layout.position.format, VertexFormat::Float32x3);
    assert_eq!(layout.normal.format, VertexFormat::Float32x3);
}

#[test]
fn shape_pipelines_test_depth_cull_back_faces_and_write_hdr() {
    for (pipeline, shader) in [(Pipeline::Cube, Shader::CubeInstance), (Pipeline::Sphere, Shader::SphereInstance)] {
        let d = describe_pipeline(pipeline);
        assert_eq!(d.shader, shader);
        assert_eq!(d.vertex_entry_point, EntryPoint::VsMain);
        assert_eq!(d.vertex_buffer, Some(make_mesh_vertex_layout()));
        let fragment = d.fragment.unwrap();
        assert_eq!(fragment.entry_point, EntryPoint::FsMain);
        assert_eq!(fragment.target.format, HDR_FORMAT);
        assert_eq!(fragment.target.blend, Some(BlendState::Replace));
        assert_eq!(d.front_face, FrontFace::Ccw);
        assert_eq!(d.cull_mode, Some(Face::Back));
        let depth = d.depth_stencil.unwrap();
        assert_eq!(depth.format, TextureFormat::Depth32Float);
        assert!(depth.depth_write_enabled);
        assert_eq!(depth.depth_compare, CompareFunction::Less);
        assert_eq!(depth.bias, DepthBiasState { constant: 0, slope_scale: 0, clamp: 0 });
        assert_eq!(d.bind_group_count, 2);
    }
    assert_eq!(InstanceRenderer::new(1, 0).pipeline(), describe_pipeline(Pipeline::Cube));
    assert_eq!(SphereRenderer::new(1).pipeline(), describe_pipeline(Pipeline::Sphere));
}

#[test]
fn shadow_pipelines_are_depth_only_and_biased() {
    for (pipeline, entry_point) in [(Pipeline::ShadowCube, EntryPoint::VsCube), (Pipeline::ShadowSphere, EntryPoint::VsSphere)] {
        let d = describe_pipeline(pipeline);
        assert_eq!(d.shader, Shader::ShadowDepth);
        assert_eq!(d.vertex_entry_point, entry_point);
        assert_eq!(d.vertex_buffer, Some(make_mesh_vertex_layout()));
        assert_eq!(d.fragment, None);
        assert_eq!(d.cull_mode, Some(Face::Back));
        let depth = d.depth_stencil.unwrap();
        assert!(depth.depth_write_enabled);
        assert_eq!(depth.depth_compare, CompareFunction::Less);
        assert_eq!(
            depth.bias,
            DepthBiasState { constant: 2, slope_scale: 2.0f32.to_bits(), clamp: 0.0f32.to_bits() }
        );
        assert_eq!(d.bind_group_count, 1);
    }
    let shadow = ShadowRenderer::new(1, 0);
    assert_eq!(shadow.pipeline(ShapeType::Cube), describe_pipeline(Pipeline::ShadowCube));
    assert_eq!(shadow.pipeline(ShapeType::Sphere), describe_pipeline(Pipeline::ShadowSphere));
}

#[test]
fn sky_has_no_depth_test_and_no_bindings() {
    let d = SkyRenderer::new().pipeline();
    assert_eq!(d, describe_pipeline(Pipeline::Sky));
    assert_eq!(d.shader, Shader::Fullscreen);
    assert_eq!(d.vertex_buffer, None);
    assert_eq!(d.depth_stencil, None);
    assert_eq!(d.cull_mode, None);
    assert_eq!(d.fragment.unwrap().target.format, HDR_FORMAT);
    assert_eq!(d.fragment.unwrap().target.blend, None);
    assert_eq!(d.bind_group_count, 0);
}

#[test]
fn ground_tests_and_writes_depth_and_draws_both_sides() {
    let d = GroundRenderer::new(0, 0).pipeline();
    assert_eq!(d, describe_pipeline(Pipeline::Ground));
    assert_eq!(d.shader, Shader::Ground);
    assert_eq!(d.vertex_buffer, None);
    assert_eq!(d.cull_mode, None);
    let depth = d.depth_stencil.unwrap();
    assert!(depth.depth_write_enabled);
    assert_eq!(depth.depth_compare, CompareFunction::Less);
    assert_eq!(d.fragment.unwrap().target.format, HDR_FORMAT);
    assert_eq!(d.bind_group_count, 2);
}

#[test]
fn tonemap_writes_the_8_bit_output_without_depth() {
    let d = TonemapRenderer::new().pipeline();
    assert_eq!(d, describe_pipeline(Pipeline::Tonemap));
    assert_eq!(d.shader, Shader::Tonemap);
    assert_eq!(d.depth_stencil, None);
    assert_eq!(d.fragment.unwrap().target.format, LDR_FORMAT);
    assert_eq!(d.bind_group_count, 1);
}

#[test]
fn bind_group_layouts_list_their_bindings() {
    let camera_and_instances = vec![
        entry(0, true, true, BindingType::UniformBuffer),
        entry(1, true, false, BindingType::ReadOnlyStorageBuffer),
    ];
    assert_eq!(InstanceRenderer::new(1, 0).bind_group_layout(), camera_and_instances);
    assert_eq!(SphereRenderer::new(1).bind_group_layout(), camera_and_instances);

    let shadow = vec![
        entry(0, true, false, BindingType::UniformBuffer),
        entry(1, false, true, BindingType::DepthTexture),
        entry(2, false, true, BindingType::ComparisonSampler),
    ];
    assert_eq!(shadow_bind_group_layout(), shadow);
    assert_eq!(InstanceRenderer::new(1, 0).shadow_bind_group_layout(), shadow);
    assert_eq!(SphereRenderer::new(1).shadow_bind_group_layout(), shadow);
    assert_eq!(GroundRenderer::new(0, 0).shadow_bind_group_layout(), shadow);

    assert_eq!(
        GroundRenderer::new(0, 0).bind_group_layout(),
        vec![
            entry(0, true, true, BindingType::UniformBuffer),
            entry(1, true, true, BindingType::UniformBuffer),
        ]
    );
    assert_eq!(
        ShadowRenderer::new(1, 0).bind_group_layout(),
        vec![
            entry(0, true, false, BindingType::UniformBuffer),
            entry(1, true, false, BindingType::ReadOnlyStorageBuffer),
            entry(2, true, false, BindingType::ReadOnlyStorageBuffer),
        ]
    );
    assert_eq!(
        TonemapRenderer::new().bind_group_layout(),
        vec![
            entry(0, false, true, BindingType::FilterableTexture),
            entry(1, false, true, BindingType::FilteringSampler),
            entry(2, false, true, BindingType::UniformBuffer),
        ]
    );
}

#[test]
fn samplers_compare_for_shadows_and_filter_for_tonemapping() {
    assert_eq!(
        ShadowRenderer::new(1, 0).shadow_sampler(),
        SamplerDescriptor { compare: Some(CompareFunction::LessEqual) }
    );
    assert_eq!(TonemapRenderer::new().sampler(), SamplerDescriptor { compare: None });
}

#[test]
fn uniform_buffers_have_the_size_of_their_records() {
    let cubes = InstanceRenderer::new(1000, 0);
    assert_eq!(cubes.camera_buffer().size, 208);
    assert_eq!(cubes.shadow_uniform_buffer().size, 64);
    assert_eq!(cubes.instance_buffer().size, 48_000);
    let spheres = SphereRenderer::new(1000);
    assert_eq!(spheres.camera_buffer().size, 208);
    assert_eq!(spheres.shadow_uniform_buffer().size, 64);
    assert_eq!(spheres.instance_buffer().size, 48_000);
    assert_eq!(InstanceRenderer::new(u32::MAX, 0).instance_buffer().size, 48 * u32::MAX as u64);
}

#[test]
fn mesh_buffers_have_the_size_of_their_meshes() {
    let cubes = InstanceRenderer::new(1, 0.5f32.to_bits());
    let (vertices, indices) = cubes.geometry();
    let vertex_buffer = cubes.vertex_buffer();
    assert_eq!(vertex_buffer.size, 24 * 24);
    assert_eq!(vertex_buffer.size, physobx_core::gpu::bytes::to_bytes(&vertices).len() as u64);
    assert!(vertex_buffer.usage.vertex && !vertex_buffer.usage.index && !vertex_buffer.usage.copy_dst);
    let index_buffer = cubes.index_buffer();
    assert_eq!(index_buffer.size, 36 * 2);
    assert_eq!(index_buffer.size, physobx_core::gpu::bytes::index_bytes(&indices).len() as u64);
    assert!(index_buffer.usage.index && !index_buffer.usage.vertex);

    let spheres = SphereRenderer::new(1);
    assert_eq!(spheres.vertex_buffer().size, 221 * 24);
    assert_eq!(spheres.index_buffer().size, 1152 * 2);
    assert!(spheres.vertex_buffer().usage.vertex);
    assert!(spheres.index_buffer().usage.index);
}
