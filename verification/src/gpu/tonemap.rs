//! Tonemapping: from the scene's HDR colour to the 8-bit output.

use vstd::prelude::*;
use crate::gpu::bytes::GpuData;
use crate::gpu::command::{
    ColorAttachment,
    ColorTarget,
    Command,
    CommandEncoder,
    DrawCall,
    EncoderState,
    LoadOp,
    Pass,
    Pipeline,
    RenderPassDescriptor,
    Written,
};
use crate::gpu::descriptor::{
    make_uniform_buffer,
    uniform_buffer,
    BindGroupLayoutEntry,
    BindingType,
    BufferDescriptor,
    RenderPipelineDescriptor,
    SamplerDescriptor,
    ShaderStages,
};
use crate::gpu::pipelines::{describe_pipeline, pipeline_descriptor};
use crate::gpu::sky_renderer::FULLSCREEN_VERTEX_COUNT;
use crate::scalar::{ONE, ZERO};

verus! {

/// Bytes of the tonemap uniform block.
pub const TONEMAP_UNIFORM_SIZE: u64 = 16;

/// The exposure by which colours are scaled before the tone curve.
#[derive(Clone, Copy, Debug, PartialEq, Eq)]
pub struct TonemapParams {
    pub exposure: u32,
    pub _padding: [u32; 3],
}

impl TonemapParams {
    /// The parameters with the given exposure.
    pub open spec fn with_exposure(exposure: u32) -> TonemapParams {
        TonemapParams { exposure, _padding: [ZERO, ZERO, ZERO] }
    }
}

impl Default for TonemapParams {
    /// An exposure of one.
    fn default() -> (p: TonemapParams)
        ensures
            p == TonemapParams::with_exposure(ONE),
    {
        let p = TonemapParams { exposure: ONE, _padding: [ZERO, ZERO, ZERO] };
        assert(p._padding =~= TonemapParams::with_exposure(ONE)._padding);
        p
    }
}

impl GpuData for TonemapParams {
    open spec fn word_count() -> nat {
        4
    }

    open spec fn words(&self) -> Seq<u32> {
        seq![self.exposure] + self._padding@
    }

    proof fn lemma_word_count(&self) {
    }

    fn write_words(&self, out: &mut Vec<u32>) {
        out.push(self.exposure);
        out.push(self._padding[0]);
        out.push(self._padding[1]);
        out.push(self._padding[2]);
        assert(out@ =~= old(out)@ + self.words());
    }
}

/// The bindings of the tonemap pass, all for the fragment stage: the scene's
/// colour, a filtering sampler, and the parameters.
pub open spec fn tonemap_bindings() -> Seq<BindGroupLayoutEntry> {
    seq![
        BindGroupLayoutEntry {
            binding: 0,
            visibility: ShaderStages { vertex: false, fragment: true },
            ty: BindingType::FilterableTexture,
        },
        BindGroupLayoutEntry {
            binding: 1,
            visibility: ShaderStages { vertex: false, fragment: true },
            ty: BindingType::FilteringSampler,
        },
        BindGroupLayoutEntry {
            binding: 2,
            visibility: ShaderStages { vertex: false, fragment: true },
            ty: BindingType::UniformBuffer,
        },
    ]
}

/// The tonemap pass writes all of the 8-bit output and has no depth
/// attachment.
pub open spec fn tonemap_pass() -> RenderPassDescriptor {
    RenderPassDescriptor {
        label: Pass::Tonemap,
        color: Some(ColorAttachment { target: ColorTarget::Ldr, load: LoadOp::Clear }),
        depth: None,
    }
}

/// The commands of the tonemap pass.
pub open spec fn tonemap_pass_commands() -> Seq<Command> {
    seq![
        Command::BeginRenderPass(tonemap_pass()),
        Command::Draw(
            DrawCall {
                pipeline: Pipeline::Tonemap,
                shadow_bound: false,
                mesh: None,
                count: FULLSCREEN_VERTEX_COUNT,
                instances: 1,
            },
        ),
        Command::EndRenderPass,
    ]
}

/// Resolves the scene's colour into the 8-bit output.
#[derive(Clone, Copy, Debug, PartialEq, Eq)]
pub struct TonemapRenderer {
    /// The parameters that the next pass uses.
    pub params: TonemapParams,
}

impl TonemapRenderer {
    /// A tonemap renderer with an exposure of one.
    pub fn new() -> (r: TonemapRenderer)
        ensures
            r.params == TonemapParams::with_exposure(ONE),
    {
        TonemapRenderer { params: TonemapParams::default() }
    }

    /// The sampler through which the scene's colour is read: it filters and
    /// does not compare.
    pub fn sampler(&self) -> (d: SamplerDescriptor)
        ensures
            d == (SamplerDescriptor { compare: None }),
    {
        SamplerDescriptor { compare: None }
    }

    /// The buffer that holds the parameters.
    pub fn params_buffer(&self) -> (d: BufferDescriptor)
        ensures
            d == uniform_buffer(TONEMAP_UNIFORM_SIZE),
    {
        make_uniform_buffer(TONEMAP_UNIFORM_SIZE)
    }

    /// The layout of the bind group.
    pub fn bind_group_layout(&self) -> (entries: Vec<BindGroupLayoutEntry>)
        ensures
            entries@ == tonemap_bindings(),
    {
        let mut entries: Vec<BindGroupLayoutEntry> = Vec::new();
        entries.push(
            BindGroupLayoutEntry {
                binding: 0,
                visibility: ShaderStages { vertex: false, fragment: true },
                ty: BindingType::FilterableTexture,
            },
        );
        entries.push(
            BindGroupLayoutEntry {
                binding: 1,
                visibility: ShaderStages { vertex: false, fragment: true },
                ty: BindingType::FilteringSampler,
            },
        );
        entries.push(
            BindGroupLayoutEntry {
                binding: 2,
                visibility: ShaderStages { vertex: false, fragment: true },
                ty: BindingType::UniformBuffer,
            },
        );
        entries
    }

    /// The pipeline that resolves the scene's colour.
    pub fn pipeline(&self) -> (d: RenderPipelineDescriptor)
        ensures
            d == pipeline_descriptor(Pipeline::Tonemap),
    {
        describe_pipeline(Pipeline::Tonemap)
    }

    /// Sets the exposure, as a single-precision bit pattern.
    pub fn set_exposure(&mut self, exposure: u32)
        ensures
            final(self).params.exposure == exposure,
            final(self).params._padding == old(self).params._padding,
    {
        self.params.exposure = exposure;
    }

    /// Records the tonemap pass and hands out the parameters to upload before
    /// it runs. The pass samples the scene's colour, so it comes after every
    /// pass that draws into it.
    pub fn render(&self, encoder: &mut CommandEncoder) -> (params: TonemapParams)
        requires
            old(encoder).state().open is None,
            old(encoder).state().written.hdr,
            !old(encoder).state().written.ldr,
        ensures
            params == self.params,
            final(encoder)@ == old(encoder)@ + tonemap_pass_commands(),
            final(encoder).state() == (EncoderState {
                open: None,
                written: Written { ldr: true, ..old(encoder).state().written },
            }),
    {
        encoder.begin_render_pass(
            RenderPassDescriptor {
                label: Pass::Tonemap,
                color: Some(ColorAttachment { target: ColorTarget::Ldr, load: LoadOp::Clear }),
                depth: None,
            },
        );
        encoder.draw(
            DrawCall {
                pipeline: Pipeline::Tonemap,
                shadow_bound: false,
                mesh: None,
                count: FULLSCREEN_VERTEX_COUNT,
                instances: 1,
            },
        );
        encoder.end_render_pass();
        assert(encoder@ =~= old(encoder)@ + tonemap_pass_commands());
        self.params
    }
}

} // verus!
