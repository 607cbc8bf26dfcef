//! The background: the first pass of a frame.

use vstd::prelude::*;
use crate::gpu::command::{
    ColorAttachment,
    ColorTarget,
    Command,
    CommandEncoder,
    DrawCall,
    EncoderState,
    LoadOp,
    Pass,
    Pipeline,
    RenderPassDescriptor,
    Written,
};
use crate::gpu::descriptor::RenderPipelineDescriptor;
use crate::gpu::pipelines::{describe_pipeline, pipeline_descriptor};

verus! {

/// Vertices of the triangle that covers the screen.
pub const FULLSCREEN_VERTEX_COUNT: u32 = 3;

/// The sky pass clears the scene's colour and has no depth attachment.
pub open spec fn sky_pass() -> RenderPassDescriptor {
    RenderPassDescriptor {
        label: Pass::Sky,
        color: Some(ColorAttachment { target: ColorTarget::Hdr, load: LoadOp::Clear }),
        depth: None,
    }
}

/// The commands of the sky pass.
pub open spec fn sky_pass_commands() -> Seq<Command> {
    seq![
        Command::BeginRenderPass(sky_pass()),
        Command::Draw(
            DrawCall {
                pipeline: Pipeline::Sky,
                shadow_bound: false,
                mesh: None,
                count: FULLSCREEN_VERTEX_COUNT,
                instances: 1,
            },
        ),
        Command::EndRenderPass,
    ]
}

/// Draws the sky gradient behind everything else.
#[derive(Clone, Copy, Debug, PartialEq, Eq)]
pub struct SkyRenderer {}

impl SkyRenderer {
    /// A sky renderer. It holds no state: what it draws is fixed by its
    /// pipeline and its pass.
    pub fn new() -> (r: SkyRenderer)
        ensures
            r == (SkyRenderer {  }),
    {
        SkyRenderer {  }
    }

    /// The pipeline that draws the sky.
    pub fn pipeline(&self) -> (d: RenderPipelineDescriptor)
        ensures
            d == pipeline_descriptor(Pipeline::Sky),
    {
        describe_pipeline(Pipeline::Sky)
    }

    /// Records the sky pass: the scene's colour is cleared and the gradient
    /// drawn over all of it, with no depth test. The passes that follow keep
    /// the colour, so this pass comes before them.
    pub fn render(&self, encoder: &mut CommandEncoder)
        requires
            old(encoder).state().open is None,
            !old(encoder).state().written.hdr,
        ensures
            final(encoder)@ == old(encoder)@ + sky_pass_commands(),
            final(encoder).state() == (EncoderState {
                open: None,
                written: Written { hdr: true, ..old(encoder).state().written },
            }),
    {
        encoder.begin_render_pass(
            RenderPassDescriptor {
                label: Pass::Sky,
                color: Some(ColorAttachment { target: ColorTarget::Hdr, load: LoadOp::Clear }),
                depth: None,
            },
        );
        encoder.draw(
            DrawCall {
                pipeline: Pipeline::Sky,
                shadow_bound: false,
                mesh: None,
                count: FULLSCREEN_VERTEX_COUNT,
                instances: 1,
            },
        );
        encoder.end_render_pass();
        assert(encoder@ =~= old(encoder)@ + sky_pass_commands());
    }
}

} // verus!
