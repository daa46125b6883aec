use crate::wgpu_components::{
    ClearColor, Command, PassDescriptor, RecordedPass, RecordedPassView, RenderPass, Request, RequestView,
    ResourceKind, TextureFormat, TextureView, WgpuContext,
};
use vstd::prelude::*;

verus! {

/// The offscreen render targets of the lighting pipeline, all of one size.
#[derive(Clone, Copy, Debug, PartialEq, Eq, Structural)]
pub struct LigthTextures {
    /// Per-pixel surface normals.
    pub normal: TextureView,
    /// The lit result, sampled by the diffuse pass.
    pub ligth: TextureView,
    /// Depth buffer of the lighting pass.
    pub ligth_depth: TextureView,
}

impl LigthTextures {
    /// The target set of size `width` x `height` whose handles start at `first`.
    pub open spec fn at(first: nat, width: u32, height: u32) -> LigthTextures {
        LigthTextures {
            normal: TextureView {
                id: first as usize,
                width,
                height,
                format: TextureFormat::Rgb10a2Unorm,
            },
            ligth: TextureView {
                id: (first + 1) as usize,
                width,
                height,
                format: TextureFormat::Rgb10a2Unorm,
            },
            ligth_depth: TextureView {
                id: (first + 2) as usize,
                width,
                height,
                format: TextureFormat::Depth32Float,
            },
        }
    }

    pub open spec fn creation_requests(self) -> Seq<RequestView> {
        seq![
            RequestView::CreateTexture { view: self.normal },
            RequestView::CreateTexture { view: self.ligth },
            RequestView::CreateTexture { view: self.ligth_depth },
        ]
    }

    pub open spec fn destruction_requests(self) -> Seq<RequestView> {
        seq![
            RequestView::DestroyTexture { view: self.normal },
            RequestView::DestroyTexture { view: self.ligth },
            RequestView::DestroyTexture { view: self.ligth_depth },
        ]
    }

    fn new(ctx: &mut WgpuContext, width: u32, height: u32) -> (textures: Self)
        ensures
            textures == Self::at(old(ctx).resources().len(), width, height),
            final(ctx).resources() == old(ctx).resources().push(ResourceKind::Texture).push(
                ResourceKind::Texture,
            ).push(ResourceKind::Texture),
            final(ctx).requests() == old(ctx).requests() + textures.creation_requests(),
    {
        let normal = TextureView {
            id: ctx.create(ResourceKind::Texture),
            width,
            height,
            format: TextureFormat::Rgb10a2Unorm,
        };
        ctx.request(Request::CreateTexture { view: normal });
        let ligth = TextureView {
            id: ctx.create(ResourceKind::Texture),
            width,
            height,
            format: TextureFormat::Rgb10a2Unorm,
        };
        ctx.request(Request::CreateTexture { view: ligth });
        let ligth_depth = TextureView {
            id: ctx.create(ResourceKind::Texture),
            width,
            height,
            format: TextureFormat::Depth32Float,
        };
        ctx.request(Request::CreateTexture { view: ligth_depth });
        let textures = LigthTextures { normal, ligth, ligth_depth };
        assert(ctx.requests() =~= old(ctx).requests() + textures.creation_requests());
        textures
    }

    fn destroy(&self, ctx: &mut WgpuContext)
        ensures
            final(ctx).resources() == old(ctx).resources(),
            final(ctx).requests() == old(ctx).requests() + self.destruction_requests(),
    {
        ctx.request(Request::DestroyTexture { view: self.normal });
        ctx.request(Request::DestroyTexture { view: self.ligth });
        ctx.request(Request::DestroyTexture { view: self.ligth_depth });
        assert(ctx.requests() =~= old(ctx).requests() + self.destruction_requests());
    }
}

/// Owner of the render targets; every frame is started from it.
pub struct LigthPipeline {
    pub textures: LigthTextures,
}

/// Where a frame stands between its start and its submission.
#[derive(Clone, Copy, Debug, PartialEq, Eq, Structural)]
pub enum FrameState {
    /// The command streams exist; no pass was opened yet.
    Start,
    /// The three passes were opened; draws may have been recorded.
    Recording,
}

/// The three passes of one frame, recorded side by side.
pub struct LigthRenderPass {
    pub normal: RenderPass,
    pub ligth: RenderPass,
    pub diffuse: RenderPass,
}

/// The mathematical content of a [`LigthRenderPass`].
pub struct LigthRenderPassView {
    pub normal: RecordedPassView,
    pub ligth: RecordedPassView,
    pub diffuse: RecordedPassView,
}

impl View for LigthRenderPass {
    type V = LigthRenderPassView;

    open spec fn view(&self) -> LigthRenderPassView {
        LigthRenderPassView { normal: self.normal@, ligth: self.ligth@, diffuse: self.diffuse@ }
    }
}

impl LigthRenderPassView {
    /// Three passes without commands: normals cleared to the flat normal,
    /// the lit target and its depth buffer cleared to black and far, the
    /// output cleared to black.
    pub open spec fn opened(textures: LigthTextures, output_view: TextureView) -> Self {
        LigthRenderPassView {
            normal: RecordedPassView {
                descriptor: PassDescriptor {
                    color: textures.normal,
                    clear: ClearColor::FlatNormal,
                    depth: None,
                },
                commands: Seq::empty(),
            },
            ligth: RecordedPassView {
                descriptor: PassDescriptor {
                    color: textures.ligth,
                    clear: ClearColor::Black,
                    depth: Some(textures.ligth_depth),
                },
                commands: Seq::empty(),
            },
            diffuse: RecordedPassView {
                descriptor: PassDescriptor {
                    color: output_view,
                    clear: ClearColor::Black,
                    depth: None,
                },
                commands: Seq::empty(),
            },
        }
    }

    /// The same passes with `more` recorded at the end of the normal pass.
    pub open spec fn with_normal(self, more: Seq<Command>) -> Self {
        LigthRenderPassView { normal: self.normal.extended(more), ..self }
    }

    /// The same passes with `more` recorded at the end of the lighting pass.
    pub open spec fn with_ligth(self, more: Seq<Command>) -> Self {
        LigthRenderPassView { ligth: self.ligth.extended(more), ..self }
    }

    /// The same passes with `more` recorded at the end of the diffuse pass.
    pub open spec fn with_diffuse(self, more: Seq<Command>) -> Self {
        LigthRenderPassView { diffuse: self.diffuse.extended(more), ..self }
    }

    /// The same passes with `more` recorded at the end of each of them.
    pub open spec fn with_all(self, more: Seq<Command>) -> Self {
        self.with_normal(more).with_ligth(more).with_diffuse(more)
    }

    /// The render target that the diffuse pass samples: the color target of
    /// the lighting pass.
    pub open spec fn lit_target(self) -> TextureView {
        self.ligth.descriptor.color
    }

    /// The render target that the lighting pass samples: the color target
    /// of the normal pass.
    pub open spec fn normal_target(self) -> TextureView {
        self.normal.descriptor.color
    }

    /// The two submissions of a frame: the normal and the lighting pass
    /// together, then the diffuse pass.
    pub open spec fn resolve_requests(self) -> Seq<RequestView> {
        seq![
            RequestView::Submit { passes: seq![self.normal, self.ligth] },
            RequestView::Submit { passes: seq![self.diffuse] },
        ]
    }
}

/// `requests[at]` is a submission that holds a pass drawing into `target`.
pub open spec fn submits_target(requests: Seq<RequestView>, at: int, target: TextureView) -> bool {
    &&& 0 <= at < requests.len()
    &&& requests[at] matches RequestView::Submit { passes }
    &&& exists|p: int| 0 <= p < passes.len() && (#[trigger] passes[p]).descriptor.color == target
}

/// Submission ordering: whatever was recorded, the lighting pass is
/// submitted strictly before the diffuse pass, so the diffuse pass samples
/// the finished lit target. The normal pass goes with the lighting pass.
pub proof fn lemma_ligth_before_diffuse(
    textures: LigthTextures,
    output_view: TextureView,
    recorded: LigthRenderPassView,
)
    requires
        recorded.normal.descriptor == LigthRenderPassView::opened(
            textures,
            output_view,
        ).normal.descriptor,
        recorded.ligth.descriptor == LigthRenderPassView::opened(
            textures,
            output_view,
        ).ligth.descriptor,
        recorded.diffuse.descriptor == LigthRenderPassView::opened(
            textures,
            output_view,
        ).diffuse.descriptor,
    ensures
        recorded.resolve_requests().len() == 2,
        submits_target(recorded.resolve_requests(), 0, textures.normal),
        submits_target(recorded.resolve_requests(), 0, textures.ligth),
        submits_target(recorded.resolve_requests(), 1, output_view),
        recorded.resolve_requests()[0] == (RequestView::Submit {
            passes: seq![recorded.normal, recorded.ligth],
        }),
        recorded.resolve_requests()[1] == (RequestView::Submit { passes: seq![recorded.diffuse] }),
{
    let requests = recorded.resolve_requests();
    let first = seq![recorded.normal, recorded.ligth];
    let second = seq![recorded.diffuse];
    assert(first[0].descriptor.color == textures.normal);
    assert(first[1].descriptor.color == textures.ligth);
    assert(second[0].descriptor.color == output_view);
}

/// One frame: three command streams bound to the render targets and to the
/// output view. It is started, recorded into once, and resolved once.
pub struct LigthFrame<'a> {
    pass: LigthRenderPass,
    state: FrameState,
    output_view: &'a TextureView,
    ligth_pipeline: &'a LigthPipeline,
}

impl<'a> LigthFrame<'a> {
    pub closed spec fn state(&self) -> FrameState {
        self.state
    }

    /// What has been recorded so far.
    pub closed spec fn recorded(&self) -> LigthRenderPassView {
        self.pass@
    }

    pub closed spec fn textures(&self) -> LigthTextures {
        self.ligth_pipeline.textures
    }

    pub closed spec fn output_view(&self) -> TextureView {
        *self.output_view
    }

    pub fn current_state(&self) -> (state: FrameState)
        ensures
            state == self.state(),
    {
        self.state
    }

    /// Opens the three passes of the frame, each cleared on load and stored
    /// at its end, with nothing recorded. Whatever is recorded through the
    /// returned passes is what the frame submits.
    pub fn create_render_pass(&mut self) -> (pass: &mut LigthRenderPass)
        requires
            old(self).state() == FrameState::Start,
        ensures
            pass@ == LigthRenderPassView::opened(old(self).textures(), old(self).output_view()),
            final(self).recorded() == final(pass)@,
            final(self).state() == FrameState::Recording,
            final(self).textures() == old(self).textures(),
            final(self).output_view() == old(self).output_view(),
    {
        let textures = self.ligth_pipeline.textures;
        self.pass = LigthRenderPass::open(&textures, self.output_view);
        self.state = FrameState::Recording;
        &mut self.pass
    }

    /// Ends the passes and submits them: the normal and the lighting pass
    /// in one submission, the diffuse pass in a second, later one.
    pub fn resolve(self, ctx: &mut WgpuContext)
        requires
            self.state() == FrameState::Recording,
        ensures
            final(ctx).resources() == old(ctx).resources(),
            final(ctx).requests() == old(ctx).requests() + self.recorded().resolve_requests(),
    {
        let ghost recorded = self.recorded();
        let LigthFrame { pass, state: _, output_view: _, ligth_pipeline: _ } = self;
        submit(pass, ctx);
        assert(ctx.requests() =~= old(ctx).requests() + recorded.resolve_requests());
    }
}

impl LigthRenderPass {
    fn open(textures: &LigthTextures, output_view: &TextureView) -> (pass: LigthRenderPass)
        ensures
            pass@ == LigthRenderPassView::opened(*textures, *output_view),
    {
        LigthRenderPass {
            normal: RenderPass::begin(
                PassDescriptor {
                    color: textures.normal,
                    clear: ClearColor::FlatNormal,
                    depth: None,
                },
            ),
            ligth: RenderPass::begin(
                PassDescriptor {
                    color: textures.ligth,
                    clear: ClearColor::Black,
                    depth: Some(textures.ligth_depth),
                },
            ),
            diffuse: RenderPass::begin(
                PassDescriptor { color: *output_view, clear: ClearColor::Black, depth: None },
            ),
        }
    }
}

/// Ends the three passes and hands them to the queue: the normal and the
/// lighting pass first, the diffuse pass after them.
fn submit(pass: LigthRenderPass, ctx: &mut WgpuContext)
    ensures
        final(ctx).resources() == old(ctx).resources(),
        final(ctx).requests() == old(ctx).requests() + pass@.resolve_requests(),
{
    let LigthRenderPass { normal, ligth, diffuse } = pass;
    let mut first: Vec<RecordedPass> = Vec::new();
    first.push(normal.finish());
    first.push(ligth.finish());
    let mut second: Vec<RecordedPass> = Vec::new();
    second.push(diffuse.finish());
    assert(first@.map_values(|p: RecordedPass| p@) =~= seq![pass@.normal, pass@.ligth]);
    assert(second@.map_values(|p: RecordedPass| p@) =~= seq![pass@.diffuse]);
    ctx.request(Request::Submit { passes: first });
    ctx.request(Request::Submit { passes: second });
    assert(ctx.requests() =~= old(ctx).requests() + pass@.resolve_requests());
}

impl LigthPipeline {
    /// Creates the render targets at the given size.
    pub fn new(ctx: &mut WgpuContext, width: u32, height: u32) -> (pipeline: Self)
        ensures
            pipeline.textures == LigthTextures::at(old(ctx).resources().len(), width, height),
            final(ctx).resources() == old(ctx).resources().push(ResourceKind::Texture).push(
                ResourceKind::Texture,
            ).push(ResourceKind::Texture),
            final(ctx).requests() == old(ctx).requests() + pipeline.textures.creation_requests(),
    {
        let textures = LigthTextures::new(ctx, width, height);
        LigthPipeline { textures }
    }

    /// Destroys all render targets and creates them anew at the given size.
    /// None of the old handles stays in use: whoever bound one has to bind
    /// the new targets.
    pub fn resize(&mut self, ctx: &mut WgpuContext, width: u32, height: u32)
        ensures
            final(self).textures == LigthTextures::at(old(ctx).resources().len(), width, height),
            final(ctx).resources() == old(ctx).resources().push(ResourceKind::Texture).push(
                ResourceKind::Texture,
            ).push(ResourceKind::Texture),
            final(ctx).requests() == old(ctx).requests() + old(
                self,
            ).textures.destruction_requests() + final(self).textures.creation_requests(),
    {
        self.textures.destroy(ctx);
        self.textures = LigthTextures::new(ctx, width, height);
    }

    /// Starts a frame on the current render targets that ends up in
    /// `output_view`. The targets cannot be resized while the frame lives.
    pub fn start_frame<'a>(&'a self, output_view: &'a TextureView) -> (frame: LigthFrame<'a>)
        ensures
            frame.state() == FrameState::Start,
            frame.textures() == self.textures,
            frame.output_view() == *output_view,
    {
        LigthFrame {
            pass: LigthRenderPass::open(&self.textures, output_view),
            state: FrameState::Start,
            output_view,
            ligth_pipeline: self,
        }
    }
}

} // verus!
