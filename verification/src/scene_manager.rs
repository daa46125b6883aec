use crate::error::ErrResult;
use crate::input::{Keyboard, WindowEvent};
use crate::ligth_pipeline::{LigthPipeline, LigthRenderPassView, LigthTextures};
use crate::math::Vec2;
use crate::scenes::{Lobby, LobbyModel, Recording};
use crate::shaders::{LigthShader, LigthUniform, QuadShader, ShaderSources, Shaders, ShadersModel};
use crate::texture_atlas::TextureAtlas;
use crate::wgpu_components::{ContextView, ResourceKind, TextureView, WgpuContext};
use vstd::prelude::*;

verus! {

/// Owner of everything a frame needs: the render targets, the shaders
/// bound to them, the scene, and the text typed since the last frame.
pub struct SceneManager {
    scene: Lobby,
    shaders: Shaders,
    pipeline: LigthPipeline,
    keyboard: Keyboard,
}

/// The kinds of the handles of the three render targets.
pub open spec fn target_resources() -> Seq<ResourceKind> {
    seq![ResourceKind::Texture, ResourceKind::Texture, ResourceKind::Texture]
}

impl SceneManager {
    pub closed spec fn scene_model(&self) -> LobbyModel {
        self.scene.model()
    }

    /// The current render targets.
    pub closed spec fn textures(&self) -> LigthTextures {
        self.pipeline.textures
    }

    pub closed spec fn shaders(&self) -> ShadersModel {
        self.shaders.model()
    }

    /// The text typed since the last frame.
    pub closed spec fn typed_text(&self) -> Seq<char> {
        self.keyboard@
    }

    /// The scene can be drawn, and every shader samples the current
    /// render targets.
    pub closed spec fn wf(&self) -> bool {
        &&& self.scene.wf()
        &&& self.shaders.bound_to(self.pipeline.textures)
    }

    /// The context after the render targets of the given size were
    /// created, and the lighting shader bound to them.
    pub open spec fn ligth_context(
        ctx: ContextView,
        width: u32,
        height: u32,
        ligth_src: Seq<char>,
    ) -> ContextView {
        ctx.extended(
            target_resources() + LigthShader::resources(),
            LigthTextures::at(ctx.next(), width, height).creation_requests()
                + LigthShader::creation_requests(
                ctx.next() + 3,
                LigthTextures::at(ctx.next(), width, height),
                ligth_src,
            ),
        )
    }

    /// The context after the render targets and all shaders were created.
    pub open spec fn shaders_context(
        ctx: ContextView,
        width: u32,
        height: u32,
        atlas: TextureAtlas,
        sources: ShaderSources,
    ) -> ContextView {
        ctx.extended(
            target_resources() + LigthShader::resources() + QuadShader::resources(),
            LigthTextures::at(ctx.next(), width, height).creation_requests()
                + Shaders::creation_requests(
                ctx.next() + 3,
                LigthTextures::at(ctx.next(), width, height),
                atlas,
                sources.ligth@,
                sources.quad.normal@,
                sources.quad.diffuse@,
                sources.quad.color@,
            ),
        )
    }

    /// Creates the render targets at the given size, the shaders over
    /// them and over the atlas, and the lobby with its one light. If the
    /// atlas could not be loaded this fails with the cause and its
    /// context, after the targets and the lighting shader were created.
    pub fn new(
        ctx: &mut WgpuContext,
        width: u32,
        height: u32,
        atlas: ErrResult<TextureAtlas>,
        sources: ShaderSources,
        ligth: LigthUniform,
    ) -> (manager: ErrResult<Self>)
        ensures
            atlas is Ok <==> manager is Ok,
            atlas matches Err(cause) ==> (manager matches Err(error) && error@ == cause@
                + crate::error::separator() + QuadShader::load_context()),
            atlas is Err ==> final(ctx)@ == Self::ligth_context(
                old(ctx)@,
                width,
                height,
                sources.ligth@,
            ),
            atlas matches Ok(loaded) ==> (manager matches Ok(made) && {
                &&& made.wf()
                &&& made.textures() == LigthTextures::at(old(ctx)@.next(), width, height)
                &&& made.typed_text() == Seq::<char>::empty()
                &&& made.scene_model() == LobbyModel::created(
                    Self::shaders_context(old(ctx)@, width, height, loaded, sources),
                    ligth,
                )
                &&& final(ctx)@ == LobbyModel::creation_context(
                    Self::shaders_context(old(ctx)@, width, height, loaded, sources),
                    ligth,
                )
            }),
    {
        let pipeline = LigthPipeline::new(ctx, width, height);
        assert(ctx@.resources =~= old(ctx)@.resources + target_resources());
        let shaders = match Shaders::new(ctx, &pipeline.textures, atlas, sources) {
            Ok(shaders) => shaders,
            Err(error) => {
                proof {
                    let wanted = Self::ligth_context(old(ctx)@, width, height, sources.ligth@);
                    assert(ctx@.resources =~= wanted.resources);
                    assert(ctx@.requests =~= wanted.requests);
                }
                return Err(error);
            },
        };
        proof {
            let wanted = Self::shaders_context(old(ctx)@, width, height, atlas->Ok_0, sources);
            assert(ctx@.resources =~= wanted.resources);
            assert(ctx@.requests =~= wanted.requests);
        }
        let keyboard = Keyboard::new();
        let scene = Lobby::new(ctx, ligth);
        Ok(Self { scene, shaders, pipeline, keyboard })
    }

    /// Takes in one event. Returns true if the event was used.
    pub fn handle_event(&mut self, event: &WindowEvent) -> (used: bool)
        ensures
            used == (*event is ReceivedCharacter),
            final(self).typed_text() == match *event {
                WindowEvent::ReceivedCharacter(c) if !crate::input::keyboard::is_ascii_control(c) =>
                    old(self).typed_text().push(c),
                _ => old(self).typed_text(),
            },
            final(self).scene_model() == old(self).scene_model(),
            final(self).textures() == old(self).textures(),
            final(self).shaders() == old(self).shaders(),
            old(self).wf() ==> final(self).wf(),
    {
        self.keyboard.handle_event(event)
    }

    /// The text to deliver to the scene before the next frame, if any was
    /// typed since the last one.
    pub fn propagate_events(&self) -> (text: Option<&str>)
        ensures
            self.typed_text().len() == 0 ==> text is None,
            self.typed_text().len() > 0 ==> (text matches Some(typed) && typed@
                == self.typed_text()),
    {
        self.keyboard.propagate_events()
    }

    /// The current render targets.
    pub fn ligth_textures(&self) -> (textures: LigthTextures)
        ensures
            textures == self.textures(),
    {
        self.pipeline.textures
    }

    /// True if every shader samples the current render targets.
    pub fn shaders_are_bound(&self) -> (bound: bool)
        ensures
            bound == self.shaders_bound(),
            self.wf() ==> bound,
    {
        self.shaders.is_bound_to(&self.pipeline.textures)
    }

    /// Every shader samples the current render targets.
    pub closed spec fn shaders_bound(&self) -> bool {
        self.shaders.bound_to(self.pipeline.textures)
    }

    pub fn scene(&self) -> (scene: &Lobby)
        ensures
            scene.model() == self.scene_model(),
            self.wf() ==> scene.wf(),
    {
        &self.scene
    }

    /// Hands out the scene for changes. The manager is fit for the next
    /// frame if the scene still is.
    pub fn scene_mut(&mut self) -> (scene: &mut Lobby)
        ensures
            scene.model() == old(self).scene_model(),
            old(self).wf() ==> scene.wf(),
            final(self).scene_model() == final(scene).model(),
            final(self).textures() == old(self).textures(),
            final(self).shaders() == old(self).shaders(),
            final(self).typed_text() == old(self).typed_text(),
            old(self).wf() && final(scene).wf() ==> final(self).wf(),
    {
        &mut self.scene
    }

    /// Draws one frame into `target`: the typed text is forgotten, the
    /// passes are opened on the current render targets, the scene is
    /// drawn, and the passes are submitted, the diffuse pass last.
    pub fn draw(&mut self, ctx: &mut WgpuContext, target: &TextureView)
        requires
            old(self).wf(),
        ensures
            final(self).wf(),
            final(self).textures() == old(self).textures(),
            final(self).shaders() == old(self).shaders(),
            final(self).typed_text() == Seq::<char>::empty(),
            final(self).scene_model() == old(self).scene_model().drawn(
                Recording {
                    ctx: old(ctx)@,
                    pass: LigthRenderPassView::opened(old(self).textures(), *target),
                },
                old(self).shaders(),
            ),
            final(ctx)@ == Self::frame_context(
                old(self).scene_model().recorded(
                    Recording {
                        ctx: old(ctx)@,
                        pass: LigthRenderPassView::opened(old(self).textures(), *target),
                    },
                    old(self).shaders(),
                ),
            ),
    {
        self.keyboard.update();

        let mut ligth_frame = self.pipeline.start_frame(target);
        let ligth_pass = ligth_frame.create_render_pass();

        self.scene.draw(ctx, ligth_pass, &self.shaders);

        let ghost recorded = Recording { ctx: ctx@, pass: ligth_frame.recorded() };
        ligth_frame.resolve(ctx);
        proof {
            assert(ctx@.resources =~= Self::frame_context(recorded).resources);
        }
    }

    /// The context after the passes of a recorded frame were submitted.
    pub open spec fn frame_context(recorded: Recording) -> ContextView {
        recorded.ctx.extended(Seq::empty(), recorded.pass.resolve_requests())
    }

    /// The context after the render targets were replaced by new ones of
    /// the given size, and every shader bound to the new ones.
    pub open spec fn resize_context(&self, ctx: ContextView, width: u32, height: u32) -> ContextView {
        ctx.extended(
            target_resources() + seq![
                ResourceKind::BindGroup,
                ResourceKind::BindGroup,
                ResourceKind::BindGroup,
            ],
            self.textures().destruction_requests() + LigthTextures::at(
                ctx.next(),
                width,
                height,
            ).creation_requests() + self.resize_requests(
                ctx.next() + 3,
                LigthTextures::at(ctx.next(), width, height),
            ),
        )
    }

    /// The requests that bind every shader to the targets of `textures`
    /// when the next free handle is `first`.
    pub closed spec fn resize_requests(&self, first: nat, textures: LigthTextures) -> Seq<
        crate::wgpu_components::RequestView,
    > {
        self.shaders.ligth.resize_requests(first, textures) + self.shaders.quad.resize_requests(
            first + 1,
            textures,
        )
    }

    /// Replaces the render targets by new ones of `width` x `height`
    /// pixels, binds every shader to the new targets, and lets both
    /// cameras see `view` of their world in each direction.
    pub fn resize(&mut self, ctx: &mut WgpuContext, width: u32, height: u32, view: Vec2)
        requires
            old(self).wf(),
        ensures
            final(self).wf(),
            final(self).textures() == LigthTextures::at(old(ctx)@.next(), width, height),
            final(self).typed_text() == old(self).typed_text(),
            final(self).scene_model() == old(self).scene_model().resized(view),
            final(ctx)@ == old(self).resize_context(old(ctx)@, width, height),
    {
        self.pipeline.resize(ctx, width, height);
        assert(ctx@.resources =~= old(ctx)@.resources + target_resources());
        self.shaders.resize(ctx, &self.pipeline.textures);
        self.scene.resize(view);
        proof {
            let wanted = old(self).resize_context(old(ctx)@, width, height);
            assert(ctx@.resources =~= wanted.resources);
            assert(ctx@.requests =~= wanted.requests);
        }
    }
}

} // verus!
