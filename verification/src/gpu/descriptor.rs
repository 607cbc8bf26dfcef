//! Descriptions of GPU resources.
//!
//! Each type here says what a texture, buffer, sampler, binding or pipeline is
//! to be, as plain data. The renderers produce these descriptions; whoever
//! owns the device creates the resources from them.

use vstd::prelude::*;

verus! {

/// Texel formats of the attachments this renderer uses.
#[derive(Clone, Copy, Debug, PartialEq, Eq, Structural)]
pub enum TextureFormat {
    /// Four half-precision channels; the scene is shaded into this format.
    Rgba16Float,
    /// Four 8-bit channels with sRGB encoding; what is read back and saved.
    Rgba8UnormSrgb,
    /// One single-precision depth channel.
    Depth32Float,
}

impl TextureFormat {
    /// Bytes one texel takes in a linear copy.
    pub open spec fn spec_bytes_per_texel(self) -> u32 {
        match self {
            TextureFormat::Rgba16Float => 8,
            TextureFormat::Rgba8UnormSrgb => 4,
            TextureFormat::Depth32Float => 4,
        }
    }

    /// Bytes one texel takes in a linear copy.
    #[verifier::when_used_as_spec(spec_bytes_per_texel)]
    pub fn bytes_per_texel(self) -> (n: u32)
        ensures
            n == self.spec_bytes_per_texel(),
    {
        match self {
            TextureFormat::Rgba16Float => 8,
            TextureFormat::Rgba8UnormSrgb => 4,
            TextureFormat::Depth32Float => 4,
        }
    }
}

/// What a texture may be used for.
#[derive(Clone, Copy, Debug, PartialEq, Eq, Structural)]
pub struct TextureUsages {
    /// It can be a colour or depth attachment of a render pass.
    pub render_attachment: bool,
    /// It can be sampled through a bind group.
    pub texture_binding: bool,
    /// It can be the source of a copy.
    pub copy_src: bool,
}

/// A two-dimensional texture with one mip level and one sample per texel.
#[derive(Clone, Copy, Debug, PartialEq, Eq, Structural)]
pub struct TextureDescriptor {
    pub width: u32,
    pub height: u32,
    pub format: TextureFormat,
    pub usage: TextureUsages,
}

/// What a buffer may be used for.
#[derive(Clone, Copy, Debug, PartialEq, Eq, Structural)]
pub struct BufferUsages {
    pub vertex: bool,
    pub index: bool,
    pub uniform: bool,
    pub storage: bool,
    pub copy_dst: bool,
    pub map_read: bool,
}

/// A buffer of `size` bytes, unmapped at creation.
#[derive(Clone, Copy, Debug, PartialEq, Eq, Structural)]
pub struct BufferDescriptor {
    pub size: u64,
    pub usage: BufferUsages,
}

/// A uniform block that the CPU rewrites every frame.
pub open spec fn uniform_buffer(size: u64) -> BufferDescriptor {
    BufferDescriptor {
        size,
        usage: BufferUsages {
            vertex: false,
            index: false,
            uniform: true,
            storage: false,
            copy_dst: true,
            map_read: false,
        },
    }
}

/// A structured buffer that the CPU rewrites every frame and shaders read.
pub open spec fn storage_buffer(size: u64) -> BufferDescriptor {
    BufferDescriptor {
        size,
        usage: BufferUsages {
            vertex: false,
            index: false,
            uniform: false,
            storage: true,
            copy_dst: true,
            map_read: false,
        },
    }
}

/// A buffer that holds the vertices of a mesh, filled when it is created.
pub open spec fn vertex_buffer(size: u64) -> BufferDescriptor {
    BufferDescriptor {
        size,
        usage: BufferUsages {
            vertex: true,
            index: false,
            uniform: false,
            storage: false,
            copy_dst: false,
            map_read: false,
        },
    }
}

/// A buffer that holds the indices of a mesh, filled when it is created.
pub open spec fn index_buffer(size: u64) -> BufferDescriptor {
    BufferDescriptor {
        size,
        usage: BufferUsages {
            vertex: false,
            index: true,
            uniform: false,
            storage: false,
            copy_dst: false,
            map_read: false,
        },
    }
}

/// A buffer that receives a copy and is then mapped for reading.
pub open spec fn staging_buffer(size: u64) -> BufferDescriptor {
    BufferDescriptor {
        size,
        usage: BufferUsages {
            vertex: false,
            index: false,
            uniform: false,
            storage: false,
            copy_dst: true,
            map_read: true,
        },
    }
}

/// Builds the description of a per-frame uniform block.
pub fn make_uniform_buffer(size: u64) -> (d: BufferDescriptor)
    ensures
        d == uniform_buffer(size),
{
    BufferDescriptor {
        size,
        usage: BufferUsages {
            vertex: false,
            index: false,
            uniform: true,
            storage: false,
            copy_dst: true,
            map_read: false,
        },
    }
}

/// Builds the description of a per-frame structured buffer.
pub fn make_storage_buffer(size: u64) -> (d: BufferDescriptor)
    ensures
        d == storage_buffer(size),
{
    BufferDescriptor {
        size,
        usage: BufferUsages {
            vertex: false,
            index: false,
            uniform: false,
            storage: true,
            copy_dst: true,
            map_read: false,
        },
    }
}

/// Builds the description of a mesh's vertex buffer.
pub fn make_vertex_buffer(size: u64) -> (d: BufferDescriptor)
    ensures
        d == vertex_buffer(size),
{
    BufferDescriptor {
        size,
        usage: BufferUsages {
            vertex: true,
            index: false,
            uniform: false,
            storage: false,
            copy_dst: false,
            map_read: false,
        },
    }
}

/// Builds the description of a mesh's index buffer.
pub fn make_index_buffer(size: u64) -> (d: BufferDescriptor)
    ensures
        d == index_buffer(size),
{
    BufferDescriptor {
        size,
        usage: BufferUsages {
            vertex: false,
            index: true,
            uniform: false,
            storage: false,
            copy_dst: false,
            map_read: false,
        },
    }
}

/// Builds the description of a read-back buffer.
pub fn make_staging_buffer(size: u64) -> (d: BufferDescriptor)
    ensures
        d == staging_buffer(size),
{
    BufferDescriptor {
        size,
        usage: BufferUsages {
            vertex: false,
            index: false,
            uniform: false,
            storage: false,
            copy_dst: true,
            map_read: true,
        },
    }
}

/// Depth or sample comparison.
#[derive(Clone, Copy, Debug, PartialEq, Eq, Structural)]
pub enum CompareFunction {
    Less,
    LessEqual,
}

/// A sampler that clamps to the edge and filters linearly within a level.
/// With `compare` set it is a comparison sampler, as shadow lookups need.
#[derive(Clone, Copy, Debug, PartialEq, Eq, Structural)]
pub struct SamplerDescriptor {
    pub compare: Option<CompareFunction>,
}

/// The shader stages that see a binding.
#[derive(Clone, Copy, Debug, PartialEq, Eq, Structural)]
pub struct ShaderStages {
    pub vertex: bool,
    pub fragment: bool,
}

/// What kind of resource a binding holds.
#[derive(Clone, Copy, Debug, PartialEq, Eq, Structural)]
pub enum BindingType {
    /// A uniform block.
    UniformBuffer,
    /// A structured buffer that shaders only read.
    ReadOnlyStorageBuffer,
    /// A two-dimensional depth texture.
    DepthTexture,
    /// A two-dimensional colour texture that can be filtered.
    FilterableTexture,
    /// A sampler that filters.
    FilteringSampler,
    /// A sampler that compares against a reference depth.
    ComparisonSampler,
}

/// One slot of a bind group layout.
#[derive(Clone, Copy, Debug, PartialEq, Eq, Structural)]
pub struct BindGroupLayoutEntry {
    pub binding: u32,
    pub visibility: ShaderStages,
    pub ty: BindingType,
}

/// The shader modules of the renderer, one per source file.
#[derive(Clone, Copy, Debug, PartialEq, Eq, Structural)]
pub enum Shader {
    CubeInstance,
    SphereInstance,
    Ground,
    Fullscreen,
    Tonemap,
    ShadowDepth,
}

/// Entry points inside the shader modules.
#[derive(Clone, Copy, Debug, PartialEq, Eq, Structural)]
pub enum EntryPoint {
    VsMain,
    FsMain,
    VsCube,
    VsSphere,
}

impl EntryPoint {
    /// The entry point's name in the shader source.
    pub open spec fn spec_name(self) -> Seq<char> {
        match self {
            EntryPoint::VsMain => "vs_main"@,
            EntryPoint::FsMain => "fs_main"@,
            EntryPoint::VsCube => "vs_cube"@,
            EntryPoint::VsSphere => "vs_sphere"@,
        }
    }

    /// The entry point's name in the shader source.
    pub fn name(self) -> (s: &'static str)
        ensures
            s@ == self.spec_name(),
    {
        match self {
            EntryPoint::VsMain => "vs_main",
            EntryPoint::FsMain => "fs_main",
            EntryPoint::VsCube => "vs_cube",
            EntryPoint::VsSphere => "vs_sphere",
        }
    }
}

/// The one vertex attribute format in use: three single-precision numbers.
#[derive(Clone, Copy, Debug, PartialEq, Eq, Structural)]
pub enum VertexFormat {
    Float32x3,
}

/// Where a vertex attribute sits inside a vertex.
#[derive(Clone, Copy, Debug, PartialEq, Eq, Structural)]
pub struct VertexAttribute {
    pub shader_location: u32,
    pub offset: u64,
    pub format: VertexFormat,
}

/// The layout of the per-vertex buffer: position, then normal.
#[derive(Clone, Copy, Debug, PartialEq, Eq, Structural)]
pub struct VertexBufferLayout {
    pub array_stride: u64,
    pub position: VertexAttribute,
    pub normal: VertexAttribute,
}

/// How a fragment's colour meets what the target already holds.
#[derive(Clone, Copy, Debug, PartialEq, Eq, Structural)]
pub enum BlendState {
    /// The fragment replaces the target's texel.
    Replace,
}

/// The colour target of a pipeline; all channels are written.
#[derive(Clone, Copy, Debug, PartialEq, Eq, Structural)]
pub struct ColorTargetState {
    pub format: TextureFormat,
    pub blend: Option<BlendState>,
}

/// The fragment stage of a pipeline.
#[derive(Clone, Copy, Debug, PartialEq, Eq, Structural)]
pub struct FragmentState {
    pub entry_point: EntryPoint,
    pub target: ColorTargetState,
}

/// Which winding is the front of a triangle.
#[derive(Clone, Copy, Debug, PartialEq, Eq, Structural)]
pub enum FrontFace {
    /// Counter-clockwise, seen from outside.
    Ccw,
}

/// Which side of a triangle is discarded.
#[derive(Clone, Copy, Debug, PartialEq, Eq, Structural)]
pub enum Face {
    Back,
}

/// Offset added to a fragment's depth, against self-shadowing.
#[derive(Clone, Copy, Debug, PartialEq, Eq, Structural)]
pub struct DepthBiasState {
    /// Constant term, in units of the smallest depth step.
    pub constant: i32,
    /// Factor on the fragment's depth slope, as a single-precision bit pattern.
    pub slope_scale: u32,
    /// Upper bound of the bias, as a single-precision bit pattern.
    pub clamp: u32,
}

/// Depth test and depth write of a pipeline. No stencil is used.
#[derive(Clone, Copy, Debug, PartialEq, Eq, Structural)]
pub struct DepthStencilState {
    pub format: TextureFormat,
    pub depth_write_enabled: bool,
    pub depth_compare: CompareFunction,
    pub bias: DepthBiasState,
}

/// A render pipeline. Every pipeline draws triangle lists, filled, with one
/// sample per texel.
#[derive(Clone, Copy, Debug, PartialEq, Eq, Structural)]
pub struct RenderPipelineDescriptor {
    pub shader: Shader,
    pub vertex_entry_point: EntryPoint,
    /// The per-vertex buffer, if the vertex stage reads one.
    pub vertex_buffer: Option<VertexBufferLayout>,
    /// The fragment stage; a depth-only pipeline has none.
    pub fragment: Option<FragmentState>,
    pub front_face: FrontFace,
    pub cull_mode: Option<Face>,
    pub depth_stencil: Option<DepthStencilState>,
    /// Number of bind groups in the pipeline layout.
    pub bind_group_count: u32,
}

/// No depth bias.
pub open spec fn no_depth_bias() -> DepthBiasState {
    DepthBiasState { constant: 0, slope_scale: 0, clamp: 0 }
}

/// The depth state of every pass that draws scene geometry: test against the
/// nearest depth so far and record the new one.
pub open spec fn scene_depth_state(bias: DepthBiasState) -> DepthStencilState {
    DepthStencilState {
        format: TextureFormat::Depth32Float,
        depth_write_enabled: true,
        depth_compare: CompareFunction::Less,
        bias,
    }
}

/// Builds the depth state of a pass that draws scene geometry.
pub fn make_scene_depth_state(bias: DepthBiasState) -> (d: DepthStencilState)
    ensures
        d == scene_depth_state(bias),
{
    DepthStencilState {
        format: TextureFormat::Depth32Float,
        depth_write_enabled: true,
        depth_compare: CompareFunction::Less,
        bias,
    }
}

/// The three bindings through which a shaded pass reads the shadow map: the
/// light's matrix, the depth map, and a comparison sampler.
pub open spec fn shadow_bindings() -> Seq<BindGroupLayoutEntry> {
    seq![
        BindGroupLayoutEntry {
            binding: 0,
            visibility: ShaderStages { vertex: true, fragment: false },
            ty: BindingType::UniformBuffer,
        },
        BindGroupLayoutEntry {
            binding: 1,
            visibility: ShaderStages { vertex: false, fragment: true },
            ty: BindingType::DepthTexture,
        },
        BindGroupLayoutEntry {
            binding: 2,
            visibility: ShaderStages { vertex: false, fragment: true },
            ty: BindingType::ComparisonSampler,
        },
    ]
}

/// Builds the layout of the bind group through which a shaded pass reads the
/// shadow map.
pub fn shadow_bind_group_layout() -> (entries: Vec<BindGroupLayoutEntry>)
    ensures
        entries@ == shadow_bindings(),
{
    let mut entries: Vec<BindGroupLayoutEntry> = Vec::new();
    entries.push(
        BindGroupLayoutEntry {
            binding: 0,
            visibility: ShaderStages { vertex: true, fragment: false },
            ty: BindingType::UniformBuffer,
        },
    );
    entries.push(
        BindGroupLayoutEntry {
            binding: 1,
            visibility: ShaderStages { vertex: false, fragment: true },
            ty: BindingType::DepthTexture,
        },
    );
    entries.push(
        BindGroupLayoutEntry {
            binding: 2,
            visibility: ShaderStages { vertex: false, fragment: true },
            ty: BindingType::ComparisonSampler,
        },
    );
    entries
}

} // verus!
