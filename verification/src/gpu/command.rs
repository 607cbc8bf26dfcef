//! Recording a frame.
//!
//! A `CommandEncoder` takes the render passes, draws and copies of one frame
//! in the order in which the GPU is to run them. It accepts a command only
//! where it makes sense: a pass loads an attachment exactly when an earlier
//! pass of the frame has written it, a draw uses a pipeline that fits the
//! attachments of the open pass and samples only what has been written, and
//! the copy to the read-back buffer stays inside that buffer. These rules are
//! the preconditions of the recording methods, so a finished recording is
//! valid by construction.

use vstd::prelude::*;
use crate::gpu::descriptor::{RenderPipelineDescriptor, TextureFormat};
use crate::gpu::instance_renderer::CUBE_INDEX_COUNT;
use crate::gpu::pipelines::{pipeline_descriptor, samples_scene_color};
use crate::gpu::sphere_renderer::SPHERE_INDEX_COUNT;

verus! {

/// The colour attachments of the off-screen target.
#[derive(Clone, Copy, Debug, PartialEq, Eq, Structural)]
pub enum ColorTarget {
    /// The high-dynamic-range buffer the scene is shaded into.
    Hdr,
    /// The 8-bit buffer that tonemapping resolves into.
    Ldr,
}

impl ColorTarget {
    /// The texel format of the attachment.
    pub open spec fn format(self) -> TextureFormat {
        match self {
            ColorTarget::Hdr => TextureFormat::Rgba16Float,
            ColorTarget::Ldr => TextureFormat::Rgba8UnormSrgb,
        }
    }
}

/// The depth attachments.
#[derive(Clone, Copy, Debug, PartialEq, Eq, Structural)]
pub enum DepthTarget {
    /// The depth buffer of the off-screen target.
    Scene,
    /// The shadow map, rendered from the light.
    ShadowMap,
}

impl DepthTarget {
    /// The texel format of the attachment.
    pub open spec fn format(self) -> TextureFormat {
        TextureFormat::Depth32Float
    }
}

/// What a pass does with an attachment's contents when it begins. What it
/// renders is always stored.
#[derive(Clone, Copy, Debug, PartialEq, Eq, Structural)]
pub enum LoadOp {
    /// Start from the clear value: black for colour, the far plane for depth.
    Clear,
    /// Keep what earlier passes left.
    Load,
}

/// The colour attachment of a pass.
#[derive(Clone, Copy, Debug, PartialEq, Eq, Structural)]
pub struct ColorAttachment {
    pub target: ColorTarget,
    pub load: LoadOp,
}

/// The depth attachment of a pass.
#[derive(Clone, Copy, Debug, PartialEq, Eq, Structural)]
pub struct DepthAttachment {
    pub target: DepthTarget,
    pub load: LoadOp,
}

/// The passes of a frame.
#[derive(Clone, Copy, Debug, PartialEq, Eq, Structural)]
pub enum Pass {
    Shadow,
    Sky,
    Ground,
    Cube,
    Sphere,
    Tonemap,
}

/// A render pass: its name and what it renders into.
#[derive(Clone, Copy, Debug, PartialEq, Eq, Structural)]
pub struct RenderPassDescriptor {
    pub label: Pass,
    pub color: Option<ColorAttachment>,
    pub depth: Option<DepthAttachment>,
}

impl RenderPassDescriptor {
    /// Whether the pass renders into the colour attachment `target`.
    pub open spec fn renders_color(self, target: ColorTarget) -> bool {
        self.color is Some && self.color.unwrap().target == target
    }

    /// Whether the pass renders into the depth attachment `target`.
    pub open spec fn renders_depth(self, target: DepthTarget) -> bool {
        self.depth is Some && self.depth.unwrap().target == target
    }

}

/// The render pipelines of the renderer.
#[derive(Clone, Copy, Debug, PartialEq, Eq, Structural)]
pub enum Pipeline {
    ShadowCube,
    ShadowSphere,
    Sky,
    Ground,
    Cube,
    Sphere,
    Tonemap,
}

/// The two meshes that are drawn instanced.
#[derive(Clone, Copy, Debug, PartialEq, Eq, Structural)]
pub enum Mesh {
    Cube,
    Sphere,
}

impl Mesh {
    /// The number of indices the mesh has.
    pub open spec fn index_count(self) -> u32 {
        match self {
            Mesh::Cube => CUBE_INDEX_COUNT,
            Mesh::Sphere => SPHERE_INDEX_COUNT,
        }
    }
}

/// One draw call with the state it needs. The pipeline's own bind group is
/// always bound; `shadow_bound` says whether the group that holds the shadow
/// map is bound as well. With a mesh the draw is indexed and `count` is the
/// number of indices; without one `count` vertices are generated in the
/// shader.
#[derive(Clone, Copy, Debug, PartialEq, Eq, Structural)]
pub struct DrawCall {
    pub pipeline: Pipeline,
    pub shadow_bound: bool,
    pub mesh: Option<Mesh>,
    pub count: u32,
    pub instances: u32,
}

/// A copy of a whole colour attachment into a buffer, rows one after another
/// from offset 0.
#[derive(Clone, Copy, Debug, PartialEq, Eq, Structural)]
pub struct TextureCopy {
    pub source: ColorTarget,
    pub width: u32,
    pub height: u32,
    /// Distance in bytes from one row's start to the next in the buffer.
    pub bytes_per_row: u32,
    pub rows_per_image: u32,
    /// Size in bytes of the buffer written to.
    pub buffer_size: u64,
}

/// One recorded command.
#[derive(Clone, Copy, Debug, PartialEq, Eq, Structural)]
pub enum Command {
    BeginRenderPass(RenderPassDescriptor),
    Draw(DrawCall),
    EndRenderPass,
    CopyTextureToBuffer(TextureCopy),
}

/// Which attachments hold contents written in this frame.
#[derive(Clone, Copy, Debug, PartialEq, Eq, Structural)]
pub struct Written {
    pub hdr: bool,
    pub ldr: bool,
    pub scene_depth: bool,
    pub shadow_map: bool,
}

impl Written {
    /// Whether a colour attachment has been written.
    pub open spec fn color(self, target: ColorTarget) -> bool {
        match target {
            ColorTarget::Hdr => self.hdr,
            ColorTarget::Ldr => self.ldr,
        }
    }

    /// Whether a depth attachment has been written.
    pub open spec fn depth(self, target: DepthTarget) -> bool {
        match target {
            DepthTarget::Scene => self.scene_depth,
            DepthTarget::ShadowMap => self.shadow_map,
        }
    }

    /// The attachments written once `pass` has ended.
    pub open spec fn after(self, pass: RenderPassDescriptor) -> Written {
        Written {
            hdr: self.hdr || pass.renders_color(ColorTarget::Hdr),
            ldr: self.ldr || pass.renders_color(ColorTarget::Ldr),
            scene_depth: self.scene_depth || pass.renders_depth(DepthTarget::Scene),
            shadow_map: self.shadow_map || pass.renders_depth(DepthTarget::ShadowMap),
        }
    }
}

/// Where a recording stands: the pass being recorded, if any, and what the
/// passes that have ended have written.
pub struct EncoderState {
    pub open: Option<RenderPassDescriptor>,
    pub written: Written,
}

/// The state of an empty recording.
pub open spec fn initial_state() -> EncoderState {
    EncoderState {
        open: None,
        written: Written { hdr: false, ldr: false, scene_depth: false, shadow_map: false },
    }
}

/// A pass may begin when no other is open and it has an attachment. It keeps
/// the contents of an attachment that an earlier pass of the frame has
/// written, and clears one that none has: nothing stale is loaded, and nothing
/// rendered is thrown away.
pub open spec fn begin_allowed(s: EncoderState, pass: RenderPassDescriptor) -> bool {
    &&& s.open is None
    &&& pass.color is Some || pass.depth is Some
    &&& pass.color is Some ==> (pass.color.unwrap().load == LoadOp::Load <==> s.written.color(
        pass.color.unwrap().target,
    ))
    &&& pass.depth is Some ==> (pass.depth.unwrap().load == LoadOp::Load <==> s.written.depth(
        pass.depth.unwrap().target,
    ))
}

/// A pipeline fits a pass when it writes exactly the attachments the pass
/// has, in their formats.
pub open spec fn pipeline_fits_pass(p: RenderPipelineDescriptor, pass: RenderPassDescriptor) -> bool {
    &&& p.fragment is Some <==> pass.color is Some
    &&& p.depth_stencil is Some <==> pass.depth is Some
    &&& p.fragment is Some ==> p.fragment.unwrap().target.format
        == pass.color.unwrap().target.format()
    &&& p.depth_stencil is Some ==> p.depth_stencil.unwrap().format
        == pass.depth.unwrap().target.format()
}

/// A draw may be recorded inside a pass that its pipeline fits. It carries a
/// mesh exactly when the pipeline reads vertices from a buffer, and then
/// draws no more indices than the mesh has. It may bind
/// the shadow group only where the pipeline has a place for it, the shadow map
/// has been written and the pass does not render into it. A pipeline that
/// samples the scene's colour needs that colour written, and cannot render
/// into it.
pub open spec fn draw_allowed(s: EncoderState, call: DrawCall) -> bool {
    let p = pipeline_descriptor(call.pipeline);
    &&& s.open is Some
    &&& pipeline_fits_pass(p, s.open.unwrap())
    &&& call.shadow_bound ==> !s.open.unwrap().renders_depth(DepthTarget::ShadowMap)
    &&& samples_scene_color(call.pipeline) ==> !s.open.unwrap().renders_color(ColorTarget::Hdr)
    &&& call.mesh is Some <==> p.vertex_buffer is Some
    &&& call.mesh is Some ==> call.count <= call.mesh.unwrap().index_count()
    &&& call.shadow_bound ==> p.bind_group_count == 2 && s.written.shadow_map
    &&& samples_scene_color(call.pipeline) ==> s.written.hdr
}

/// What a recording must have reached before a pass that draws shapes or the
/// ground into the scene: no pass is open, the scene's colour has been
/// written, and so has whatever the pass loads or samples beyond that.
pub open spec fn scene_ready(s: EncoderState, needs_depth: bool, shadow_bound: bool) -> bool {
    &&& s.open is None
    &&& s.written.hdr
    &&& needs_depth ==> s.written.scene_depth
    &&& shadow_bound ==> s.written.shadow_map
}

/// A pass may end when one is open.
pub open spec fn end_allowed(s: EncoderState) -> bool {
    s.open is Some
}

/// The bytes of the buffer that a copy writes: every row but the last takes
/// the full row pitch, the last only its texels.
pub open spec fn copy_extent(copy: TextureCopy) -> int {
    if copy.width == 0 || copy.height == 0 {
        0
    } else {
        (copy.height - 1) * copy.bytes_per_row + copy.width * copy.source.format().spec_bytes_per_texel()
    }
}

/// A copy may be recorded outside any pass, from an attachment that has been
/// written. The row pitch is a multiple of 256 and holds a row of texels, and
/// the copy stays inside the buffer.
pub open spec fn copy_allowed(s: EncoderState, copy: TextureCopy) -> bool {
    &&& s.open is None
    &&& s.written.color(copy.source)
    &&& copy.bytes_per_row % 256 == 0
    &&& copy.width * copy.source.format().spec_bytes_per_texel() <= copy.bytes_per_row
    &&& copy.height <= copy.rows_per_image
    &&& copy_extent(copy) <= copy.buffer_size
}

/// Whether a command may follow a recording in state `s`.
pub open spec fn step_allowed(s: EncoderState, c: Command) -> bool {
    match c {
        Command::BeginRenderPass(pass) => begin_allowed(s, pass),
        Command::Draw(call) => draw_allowed(s, call),
        Command::EndRenderPass => end_allowed(s),
        Command::CopyTextureToBuffer(copy) => copy_allowed(s, copy),
    }
}

/// The state after a command.
pub open spec fn step(s: EncoderState, c: Command) -> EncoderState {
    match c {
        Command::BeginRenderPass(pass) => EncoderState { open: Some(pass), written: s.written },
        Command::Draw(_) => s,
        Command::EndRenderPass => match s.open {
            Some(pass) => EncoderState { open: None, written: s.written.after(pass) },
            None => s,
        },
        Command::CopyTextureToBuffer(_) => s,
    }
}

/// The state a sequence of commands leaves a recording in.
pub open spec fn replay(commands: Seq<Command>) -> EncoderState
    decreases commands.len(),
{
    if commands.len() == 0 {
        initial_state()
    } else {
        step(replay(commands.drop_last()), commands.last())
    }
}

/// A sequence of commands is valid when each command is allowed in the state
/// that those before it leave.
pub open spec fn valid(commands: Seq<Command>) -> bool
    decreases commands.len(),
{
    commands.len() == 0 || (valid(commands.drop_last()) && step_allowed(
        replay(commands.drop_last()),
        commands.last(),
    ))
}

/// Appending an allowed command to a valid sequence keeps it valid, and moves
/// the state by one step.
pub proof fn lemma_push(commands: Seq<Command>, c: Command)
    ensures
        replay(commands.push(c)) == step(replay(commands), c),
        valid(commands.push(c)) == (valid(commands) && step_allowed(replay(commands), c)),
{
    assert(commands.push(c).drop_last() =~= commands);
    assert(commands.push(c).last() == c);
}

/// In a valid sequence every command was allowed where it stands.
pub proof fn lemma_valid_at(commands: Seq<Command>, i: int)
    requires
        valid(commands),
        0 <= i < commands.len(),
    ensures
        valid(commands.take(i)),
        step_allowed(replay(commands.take(i)), commands[i]),
    decreases commands.len(),
{
    if i == commands.len() - 1 {
        assert(commands.take(i) =~= commands.drop_last());
    } else {
        lemma_valid_at(commands.drop_last(), i);
        assert(commands.drop_last().take(i) =~= commands.take(i));
    }
}

/// The passes that a sequence of commands begins, in order.
pub open spec fn pass_labels(commands: Seq<Command>) -> Seq<Pass>
    decreases commands.len(),
{
    if commands.len() == 0 {
        Seq::empty()
    } else {
        let before = pass_labels(commands.drop_last());
        match commands.last() {
            Command::BeginRenderPass(pass) => before.push(pass.label),
            _ => before,
        }
    }
}

/// The passes of two sequences, one after the other, are the passes of the
/// first followed by those of the second.
pub proof fn lemma_pass_labels_concat(a: Seq<Command>, b: Seq<Command>)
    ensures
        pass_labels(a + b) == pass_labels(a) + pass_labels(b),
    decreases b.len(),
{
    if b.len() == 0 {
        assert(a + b =~= a);
        assert(pass_labels(a) + pass_labels(b) =~= pass_labels(a));
    } else {
        lemma_pass_labels_concat(a, b.drop_last());
        assert((a + b).drop_last() =~= a + b.drop_last());
        assert((a + b).last() == b.last());
        assert(pass_labels(a + b) =~= pass_labels(a) + pass_labels(b));
    }
}

/// A pass that holds nothing but draws begins one pass: itself.
pub proof fn lemma_pass_labels_of_pass(pass: RenderPassDescriptor, draws: Seq<Command>)
    requires
        forall|i: int| 0 <= i < draws.len() ==> draws[i] is Draw,
    ensures
        pass_labels(seq![Command::BeginRenderPass(pass)] + draws + seq![Command::EndRenderPass])
            == seq![pass.label],
{
    let begin = seq![Command::BeginRenderPass(pass)];
    let end = seq![Command::EndRenderPass];
    lemma_pass_labels_of_draws(draws);
    lemma_pass_labels_concat(begin, draws);
    lemma_pass_labels_concat(begin + draws, end);
    assert(pass_labels(begin) =~= seq![pass.label]) by {
        assert(begin.drop_last() =~= Seq::<Command>::empty());
        assert(pass_labels(begin.drop_last()) =~= Seq::<Pass>::empty());
    }
    assert(pass_labels(end) =~= Seq::<Pass>::empty()) by {
        assert(end.drop_last() =~= Seq::<Command>::empty());
        assert(pass_labels(end.drop_last()) =~= Seq::<Pass>::empty());
    }
    assert(pass_labels(begin) + pass_labels(draws) + pass_labels(end) =~= seq![pass.label]);
}

/// Draws begin no pass.
pub proof fn lemma_pass_labels_of_draws(draws: Seq<Command>)
    requires
        forall|i: int| 0 <= i < draws.len() ==> draws[i] is Draw,
    ensures
        pass_labels(draws) == Seq::<Pass>::empty(),
    decreases draws.len(),
{
    if draws.len() > 0 {
        lemma_pass_labels_of_draws(draws.drop_last());
    }
}

/// Whether a command, if it is a draw of a mesh, covers no more than
/// `capacity` instances.
pub open spec fn draw_within(command: Command, capacity: u32) -> bool {
    command matches Command::Draw(call) ==> (call.mesh is Some ==> call.instances <= capacity)
}

/// Whether every draw of a mesh covers no more than `capacity` instances.
pub open spec fn draws_within(commands: Seq<Command>, capacity: u32) -> bool {
    forall|i: int| 0 <= i < commands.len() ==> draw_within(#[trigger] commands[i], capacity)
}

/// What holds of the draws of two sequences holds of the draws of the two,
/// one after the other.
pub proof fn lemma_draws_within_concat(a: Seq<Command>, b: Seq<Command>, capacity: u32)
    requires
        draws_within(a, capacity),
        draws_within(b, capacity),
    ensures
        draws_within(a + b, capacity),
{
    assert forall|i: int| 0 <= i < (a + b).len() implies draw_within(
        #[trigger] (a + b)[i],
        capacity,
    ) by {
        if i < a.len() {
            assert((a + b)[i] == a[i]);
        } else {
            assert((a + b)[i] == b[i - a.len()]);
        }
    }
}

/// Records the commands of one frame.
pub struct CommandEncoder {
    commands: Vec<Command>,
}

impl View for CommandEncoder {
    type V = Seq<Command>;

    closed spec fn view(&self) -> Seq<Command> {
        self.commands@
    }
}

impl CommandEncoder {
    #[verifier::type_invariant]
    spec fn recorded_validly(self) -> bool {
        valid(self.commands@)
    }

    /// Where the recording stands.
    pub open spec fn state(&self) -> EncoderState {
        replay(self@)
    }

    /// Appends a command that the recording's state allows.
    fn record(&mut self, c: Command)
        requires
            step_allowed(replay(old(self)@), c),
        ensures
            final(self)@ == old(self)@.push(c),
    {
        proof {
            use_type_invariant(&*self);
            lemma_push(self.commands@, c);
        }
        let mut commands: Vec<Command> = Vec::new();
        core::mem::swap(&mut self.commands, &mut commands);
        commands.push(c);
        core::mem::swap(&mut self.commands, &mut commands);
    }

    /// An empty recording.
    pub fn new() -> (encoder: CommandEncoder)
        ensures
            encoder@ == Seq::<Command>::empty(),
            encoder.state() == initial_state(),
    {
        CommandEncoder { commands: Vec::new() }
    }

    /// Begins a render pass.
    pub fn begin_render_pass(&mut self, pass: RenderPassDescriptor)
        requires
            begin_allowed(old(self).state(), pass),
        ensures
            final(self)@ == old(self)@.push(Command::BeginRenderPass(pass)),
            final(self).state() == (EncoderState {
                open: Some(pass),
                written: old(self).state().written,
            }),
    {
        proof {
            lemma_push(self@, Command::BeginRenderPass(pass));
        }
        self.record(Command::BeginRenderPass(pass));
    }

    /// Records a draw into the open pass.
    pub fn draw(&mut self, call: DrawCall)
        requires
            draw_allowed(old(self).state(), call),
        ensures
            final(self)@ == old(self)@.push(Command::Draw(call)),
            final(self).state() == old(self).state(),
    {
        proof {
            lemma_push(self@, Command::Draw(call));
        }
        self.record(Command::Draw(call));
    }

    /// Ends the open pass; its attachments now count as written.
    pub fn end_render_pass(&mut self)
        requires
            end_allowed(old(self).state()),
        ensures
            final(self)@ == old(self)@.push(Command::EndRenderPass),
            final(self).state() == (EncoderState {
                open: None,
                written: old(self).state().written.after(old(self).state().open.unwrap()),
            }),
    {
        proof {
            lemma_push(self@, Command::EndRenderPass);
        }
        self.record(Command::EndRenderPass);
    }

    /// Records the copy of a colour attachment into a buffer.
    pub fn copy_texture_to_buffer(&mut self, copy: TextureCopy)
        requires
            copy_allowed(old(self).state(), copy),
        ensures
            final(self)@ == old(self)@.push(Command::CopyTextureToBuffer(copy)),
            final(self).state() == old(self).state(),
    {
        proof {
            lemma_push(self@, Command::CopyTextureToBuffer(copy));
        }
        self.record(Command::CopyTextureToBuffer(copy));
    }

    /// Closes the recording and hands out its commands, in order.
    pub fn finish(self) -> (commands: Vec<Command>)
        requires
            self.state().open is None,
        ensures
            commands@ == self@,
            valid(commands@),
    {
        proof {
            use_type_invariant(&self);
        }
        self.commands
    }
}

} // verus!
