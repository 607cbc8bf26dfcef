//! The render pipelines, one description each.

use vstd::prelude::*;
use crate::gpu::command::Pipeline;
use crate::gpu::descriptor::{
    make_scene_depth_state,
    no_depth_bias,
    scene_depth_state,
    BlendState,
    ColorTargetState,
    CompareFunction,
    DepthBiasState,
    EntryPoint,
    Face,
    FragmentState,
    FrontFace,
    RenderPipelineDescriptor,
    Shader,
    TextureFormat,
    VertexAttribute,
    VertexBufferLayout,
    VertexFormat,
};

verus! {

/// Format of the buffer that the scene is shaded into.
pub const HDR_FORMAT: TextureFormat = TextureFormat::Rgba16Float;

/// Format of the buffer that is read back and saved.
pub const LDR_FORMAT: TextureFormat = TextureFormat::Rgba8UnormSrgb;

/// Bytes of one mesh vertex: a position and a normal, three numbers each.
pub const VERTEX_STRIDE: u64 = 24;

/// Bytes of one index of a mesh.
pub const INDEX_STRIDE: u64 = 2;

/// Bit pattern of `2.0`, the slope factor of the shadow depth bias.
pub const SHADOW_SLOPE_BIAS: u32 = 0x4000_0000;

/// How the vertex stage finds position and normal in a mesh vertex.
pub open spec fn mesh_vertex_layout() -> VertexBufferLayout {
    VertexBufferLayout {
        array_stride: VERTEX_STRIDE,
        position: VertexAttribute {
            shader_location: 0,
            offset: 0,
            format: VertexFormat::Float32x3,
        },
        normal: VertexAttribute { shader_location: 1, offset: 12, format: VertexFormat::Float32x3 },
    }
}

/// The depth bias of the shadow pipelines: a constant and a slope-scaled
/// term, both of two units, unclamped.
pub open spec fn shadow_depth_bias() -> DepthBiasState {
    DepthBiasState { constant: 2, slope_scale: SHADOW_SLOPE_BIAS, clamp: 0 }
}

/// The fragment stage of a pipeline that shades into the scene's colour.
pub open spec fn scene_fragment(blend: Option<BlendState>) -> FragmentState {
    FragmentState {
        entry_point: EntryPoint::FsMain,
        target: ColorTargetState { format: HDR_FORMAT, blend },
    }
}

/// A pipeline that draws instances of a mesh into the scene: depth test
/// "less" with depth write, back faces culled, one colour target in the
/// scene's format, and a second bind group for the shadow map.
pub open spec fn shape_pipeline(shader: Shader) -> RenderPipelineDescriptor {
    RenderPipelineDescriptor {
        shader,
        vertex_entry_point: EntryPoint::VsMain,
        vertex_buffer: Some(mesh_vertex_layout()),
        fragment: Some(scene_fragment(Some(BlendState::Replace))),
        front_face: FrontFace::Ccw,
        cull_mode: Some(Face::Back),
        depth_stencil: Some(scene_depth_state(no_depth_bias())),
        bind_group_count: 2,
    }
}

/// A pipeline that draws instances of a mesh into the shadow map: depth
/// only, biased, back faces culled.
pub open spec fn shadow_pipeline(entry: EntryPoint) -> RenderPipelineDescriptor {
    RenderPipelineDescriptor {
        shader: Shader::ShadowDepth,
        vertex_entry_point: entry,
        vertex_buffer: Some(mesh_vertex_layout()),
        fragment: None,
        front_face: FrontFace::Ccw,
        cull_mode: Some(Face::Back),
        depth_stencil: Some(scene_depth_state(shadow_depth_bias())),
        bind_group_count: 1,
    }
}

/// The background: a triangle that covers the screen, no depth test, no
/// bindings.
pub open spec fn sky_pipeline() -> RenderPipelineDescriptor {
    RenderPipelineDescriptor {
        shader: Shader::Fullscreen,
        vertex_entry_point: EntryPoint::VsMain,
        vertex_buffer: None,
        fragment: Some(scene_fragment(None)),
        front_face: FrontFace::Ccw,
        cull_mode: None,
        depth_stencil: None,
        bind_group_count: 0,
    }
}

/// The ground plane: both sides drawn, depth tested and written, with a
/// second bind group for the shadow map.
pub open spec fn ground_pipeline() -> RenderPipelineDescriptor {
    RenderPipelineDescriptor {
        shader: Shader::Ground,
        vertex_entry_point: EntryPoint::VsMain,
        vertex_buffer: None,
        fragment: Some(scene_fragment(None)),
        front_face: FrontFace::Ccw,
        cull_mode: None,
        depth_stencil: Some(scene_depth_state(no_depth_bias())),
        bind_group_count: 2,
    }
}

/// The resolve from the scene's colour into the 8-bit output.
pub open spec fn tonemap_pipeline() -> RenderPipelineDescriptor {
    RenderPipelineDescriptor {
        shader: Shader::Tonemap,
        vertex_entry_point: EntryPoint::VsMain,
        vertex_buffer: None,
        fragment: Some(
            FragmentState {
                entry_point: EntryPoint::FsMain,
                target: ColorTargetState { format: LDR_FORMAT, blend: None },
            },
        ),
        front_face: FrontFace::Ccw,
        cull_mode: None,
        depth_stencil: None,
        bind_group_count: 1,
    }
}

/// The description of each pipeline.
pub open spec fn pipeline_descriptor(p: Pipeline) -> RenderPipelineDescriptor {
    match p {
        Pipeline::ShadowCube => shadow_pipeline(EntryPoint::VsCube),
        Pipeline::ShadowSphere => shadow_pipeline(EntryPoint::VsSphere),
        Pipeline::Sky => sky_pipeline(),
        Pipeline::Ground => ground_pipeline(),
        Pipeline::Cube => shape_pipeline(Shader::CubeInstance),
        Pipeline::Sphere => shape_pipeline(Shader::SphereInstance),
        Pipeline::Tonemap => tonemap_pipeline(),
    }
}

/// Whether a pipeline samples the colour the scene was shaded into.
pub open spec fn samples_scene_color(p: Pipeline) -> bool {
    p == Pipeline::Tonemap
}

/// How the passes treat depth: the sky and tonemapping have no depth test;
/// the ground, the cubes and the spheres test against the nearest depth so
/// far and write their own; the shadow pipelines do the same, biased, and
/// write no colour. Every pipeline that draws a mesh culls back faces and
/// takes counter-clockwise triangles as front faces.
pub proof fn lemma_depth_and_culling(p: Pipeline)
    ensures
        ({
            let d = pipeline_descriptor(p);
            let shadow = p == Pipeline::ShadowCube || p == Pipeline::ShadowSphere;
            &&& d.depth_stencil is None <==> p == Pipeline::Sky || p == Pipeline::Tonemap
            &&& d.depth_stencil is Some ==> d.depth_stencil.unwrap() == scene_depth_state(
                if shadow {
                    shadow_depth_bias()
                } else {
                    no_depth_bias()
                },
            )
            &&& scene_depth_state(no_depth_bias()).depth_write_enabled
            &&& scene_depth_state(no_depth_bias()).depth_compare == CompareFunction::Less
            &&& d.fragment is None <==> shadow
            &&& d.cull_mode == Some(Face::Back) <==> d.vertex_buffer is Some
            &&& d.front_face == FrontFace::Ccw
        }),
{
}

/// Builds the vertex layout of a mesh.
pub fn make_mesh_vertex_layout() -> (layout: VertexBufferLayout)
    ensures
        layout == mesh_vertex_layout(),
{
    VertexBufferLayout {
        array_stride: VERTEX_STRIDE,
        position: VertexAttribute {
            shader_location: 0,
            offset: 0,
            format: VertexFormat::Float32x3,
        },
        normal: VertexAttribute { shader_location: 1, offset: 12, format: VertexFormat::Float32x3 },
    }
}

fn make_scene_fragment(blend: Option<BlendState>) -> (f: FragmentState)
    ensures
        f == scene_fragment(blend),
{
    FragmentState {
        entry_point: EntryPoint::FsMain,
        target: ColorTargetState { format: HDR_FORMAT, blend },
    }
}

fn make_shape_pipeline(shader: Shader) -> (p: RenderPipelineDescriptor)
    ensures
        p == shape_pipeline(shader),
{
    RenderPipelineDescriptor {
        shader,
        vertex_entry_point: EntryPoint::VsMain,
        vertex_buffer: Some(make_mesh_vertex_layout()),
        fragment: Some(make_scene_fragment(Some(BlendState::Replace))),
        front_face: FrontFace::Ccw,
        cull_mode: Some(Face::Back),
        depth_stencil: Some(
            make_scene_depth_state(DepthBiasState { constant: 0, slope_scale: 0, clamp: 0 }),
        ),
        bind_group_count: 2,
    }
}

fn make_shadow_pipeline(entry: EntryPoint) -> (p: RenderPipelineDescriptor)
    ensures
        p == shadow_pipeline(entry),
{
    RenderPipelineDescriptor {
        shader: Shader::ShadowDepth,
        vertex_entry_point: entry,
        vertex_buffer: Some(make_mesh_vertex_layout()),
        fragment: None,
        front_face: FrontFace::Ccw,
        cull_mode: Some(Face::Back),
        depth_stencil: Some(
            make_scene_depth_state(
                DepthBiasState { constant: 2, slope_scale: SHADOW_SLOPE_BIAS, clamp: 0 },
            ),
        ),
        bind_group_count: 1,
    }
}

/// Builds the description of a pipeline.
pub fn describe_pipeline(p: Pipeline) -> (d: RenderPipelineDescriptor)
    ensures
        d == pipeline_descriptor(p),
{
    match p {
        Pipeline::ShadowCube => make_shadow_pipeline(EntryPoint::VsCube),
        Pipeline::ShadowSphere => make_shadow_pipeline(EntryPoint::VsSphere),
        Pipeline::Sky => RenderPipelineDescriptor {
            shader: Shader::Fullscreen,
            vertex_entry_point: EntryPoint::VsMain,
            vertex_buffer: None,
            fragment: Some(make_scene_fragment(None)),
            front_face: FrontFace::Ccw,
            cull_mode: None,
            depth_stencil: None,
            bind_group_count: 0,
        },
        Pipeline::Ground => RenderPipelineDescriptor {
            shader: Shader::Ground,
            vertex_entry_point: EntryPoint::VsMain,
            vertex_buffer: None,
            fragment: Some(make_scene_fragment(None)),
            front_face: FrontFace::Ccw,
            cull_mode: None,
            depth_stencil: Some(
                make_scene_depth_state(DepthBiasState { constant: 0, slope_scale: 0, clamp: 0 }),
            ),
            bind_group_count: 2,
        },
        Pipeline::Cube => make_shape_pipeline(Shader::CubeInstance),
        Pipeline::Sphere => make_shape_pipeline(Shader::SphereInstance),
        Pipeline::Tonemap => RenderPipelineDescriptor {
            shader: Shader::Tonemap,
            vertex_entry_point: EntryPoint::VsMain,
            vertex_buffer: None,
            fragment: Some(
                FragmentState {
                    entry_point: EntryPoint::FsMain,
                    target: ColorTargetState { format: LDR_FORMAT, blend: None },
                },
            ),
            front_face: FrontFace::Ccw,
            cull_mode: None,
            depth_stencil: None,
            bind_group_count: 1,
        },
    }
}

} // verus!
