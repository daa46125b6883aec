pub mod lobby;

pub use lobby::{Lobby, LobbyModel};

use crate::camera::{Camera, CameraUniform};
use crate::layers::{LigthLayer, LigthLayerModel, QuadLayer};
use crate::ligth_pipeline::{LigthRenderPass, LigthRenderPassView};
use crate::shaders::{QuadInstance, Shaders, ShadersModel};
use crate::wgpu_components::{
    BufferUsages, CachedUniformModel, ContextView, VecBufferModel, WgpuContext,
};
use vstd::prelude::*;

verus! {

/// A frame in the making: what the device was asked to do so far, and
/// what the three passes hold so far.
pub struct Recording {
    pub ctx: ContextView,
    pub pass: LigthRenderPassView,
}

impl Recording {
    /// A camera is uploaded if it changed, and bound to every pass.
    pub open spec fn camera(self, camera: CachedUniformModel<CameraUniform>) -> Recording {
        Recording {
            ctx: self.ctx.extended(Seq::empty(), camera.flush_requests()),
            pass: self.pass.with_all(Camera::bind_commands(camera)),
        }
    }

    /// The lighting shader becomes current on the lighting pass.
    pub open spec fn ligth_shader(self, shaders: ShadersModel) -> Recording {
        Recording { pass: self.pass.with_ligth(shaders.ligth.bind_commands()), ..self }
    }

    /// The lit quad shaders become current on the normal and the diffuse pass.
    pub open spec fn lit_quad_shaders(self, shaders: ShadersModel) -> Recording {
        Recording {
            pass: self.pass.with_normal(shaders.normal.bind_commands()).with_diffuse(
                shaders.diffuse.bind_commands(),
            ),
            ..self
        }
    }

    /// The plain color shader becomes current on the diffuse pass.
    pub open spec fn color_quad_shader(self, shaders: ShadersModel) -> Recording {
        Recording { pass: self.pass.with_diffuse(shaders.color.bind_commands()), ..self }
    }

    /// The lights are drawn.
    pub open spec fn ligths(self, layer: LigthLayerModel) -> Recording {
        Recording {
            ctx: layer.draw_context(self.ctx),
            pass: self.pass.with_ligth(layer.draw_commands(self.ctx)),
        }
    }

    /// A layer of quads is drawn.
    pub open spec fn quads(self, layer: VecBufferModel<QuadInstance>) -> Recording {
        Recording {
            ctx: layer.sync_context(self.ctx),
            pass: QuadLayer::drawn(layer, self.ctx, self.pass),
        }
    }
}

/// The layers of the game world, seen through one camera.
pub struct GameLayers {
    pub camera: Camera,
    pub ligths: LigthLayer,
    pub background: QuadLayer,
    pub bottom_particles: QuadLayer,
    pub players: QuadLayer,
    pub blocks: QuadLayer,
    pub top_particles: QuadLayer,
}

/// The mathematical state of [`GameLayers`].
pub struct GameLayersModel {
    pub camera: CachedUniformModel<CameraUniform>,
    pub ligths: LigthLayerModel,
    pub background: VecBufferModel<QuadInstance>,
    pub bottom_particles: VecBufferModel<QuadInstance>,
    pub players: VecBufferModel<QuadInstance>,
    pub blocks: VecBufferModel<QuadInstance>,
    pub top_particles: VecBufferModel<QuadInstance>,
}

/// The context after an empty layer of quads was created.
pub open spec fn quad_layer_context(ctx: ContextView) -> ContextView {
    VecBufferModel::<QuadInstance>::creation_context(
        ctx,
        BufferUsages { vertex: true, uniform: false, copy_dst: false },
    )
}

impl GameLayersModel {
    /// The context after the camera and the light layer were created.
    pub open spec fn ligths_context(ctx: ContextView) -> ContextView {
        LigthLayer::creation_context(Camera::creation_context(ctx))
    }

    /// The context after all layers were created: the camera, the light
    /// layer, then the five quad layers.
    pub open spec fn creation_context(ctx: ContextView) -> ContextView {
        quad_layer_context(
            quad_layer_context(
                quad_layer_context(
                    quad_layer_context(quad_layer_context(Self::ligths_context(ctx))),
                ),
            ),
        )
    }

    /// The layers as they are created through the context `ctx`.
    pub open spec fn created(ctx: ContextView) -> GameLayersModel {
        let background = Self::ligths_context(ctx);
        let bottom = quad_layer_context(background);
        let players = quad_layer_context(bottom);
        let blocks = quad_layer_context(players);
        let top = quad_layer_context(blocks);
        GameLayersModel {
            camera: Camera::created(ctx),
            ligths: LigthLayer::created(Camera::creation_context(ctx)),
            background: VecBufferModel::<QuadInstance>::created(background),
            bottom_particles: VecBufferModel::<QuadInstance>::created(bottom),
            players: VecBufferModel::<QuadInstance>::created(players),
            blocks: VecBufferModel::<QuadInstance>::created(blocks),
            top_particles: VecBufferModel::<QuadInstance>::created(top),
        }
    }

    /// The frame after the camera and the lit shaders were bound.
    pub open spec fn bound(self, start: Recording, shaders: ShadersModel) -> Recording {
        start.camera(self.camera).ligth_shader(shaders).lit_quad_shaders(shaders)
    }

    /// The frame after the lights were drawn.
    pub open spec fn lit(self, start: Recording, shaders: ShadersModel) -> Recording {
        self.bound(start, shaders).ligths(self.ligths)
    }

    /// The frame after the lit layers were drawn: background, bottom
    /// particles, players.
    pub open spec fn lit_layers(self, start: Recording, shaders: ShadersModel) -> Recording {
        self.lit(start, shaders).quads(self.background).quads(self.bottom_particles).quads(
            self.players,
        )
    }

    /// The frame after all layers were drawn: the lit layers, then with
    /// the plain color shader the blocks and the top particles.
    pub open spec fn recorded(self, start: Recording, shaders: ShadersModel) -> Recording {
        self.lit_layers(start, shaders).color_quad_shader(shaders).quads(self.blocks).quads(
            self.top_particles,
        )
    }

    /// The layers after they were drawn: everything is on the device.
    pub open spec fn drawn(self, start: Recording, shaders: ShadersModel) -> GameLayersModel {
        let lit = self.lit(start, shaders);
        let background = lit.quads(self.background);
        let bottom = background.quads(self.bottom_particles);
        let players = bottom.quads(self.players);
        let blocks = players.color_quad_shader(shaders).quads(self.blocks);
        GameLayersModel {
            camera: self.camera.flushed(),
            ligths: self.ligths.drawn(self.bound(start, shaders).ctx),
            background: self.background.synced_in(lit.ctx),
            bottom_particles: self.bottom_particles.synced_in(background.ctx),
            players: self.players.synced_in(bottom.ctx),
            blocks: self.blocks.synced_in(players.ctx),
            top_particles: self.top_particles.synced_in(blocks.ctx),
        }
    }
}

impl GameLayers {
    pub open spec fn model(&self) -> GameLayersModel {
        GameLayersModel {
            camera: self.camera.model(),
            ligths: self.ligths.model(),
            background: self.background.buffer.model(),
            bottom_particles: self.bottom_particles.buffer.model(),
            players: self.players.buffer.model(),
            blocks: self.blocks.buffer.model(),
            top_particles: self.top_particles.buffer.model(),
        }
    }

    /// Every layer can be drawn.
    pub open spec fn wf(&self) -> bool {
        &&& self.camera.wf()
        &&& self.ligths.wf()
        &&& self.ligths.model().instances() <= u32::MAX
        &&& self.background.wf()
        &&& self.bottom_particles.wf()
        &&& self.players.wf()
        &&& self.blocks.wf()
        &&& self.top_particles.wf()
    }

    /// Creates the camera, the light layer and the five quad layers, in
    /// this order, all empty.
    pub fn new(ctx: &mut WgpuContext) -> (layers: Self)
        ensures
            layers.wf(),
            layers.model() == GameLayersModel::created(old(ctx)@),
            final(ctx)@ == GameLayersModel::creation_context(old(ctx)@),
    {
        let camera = Camera::new(ctx);
        let ligths = LigthLayer::new(ctx);
        let background = QuadLayer::new(ctx);
        let bottom_particles = QuadLayer::new(ctx);
        let players = QuadLayer::new(ctx);
        let blocks = QuadLayer::new(ctx);
        let top_particles = QuadLayer::new(ctx);
        GameLayers { camera, ligths, background, bottom_particles, players, blocks, top_particles }
    }

    /// Draws the game world: the camera is uploaded and bound, the lights
    /// cast their shadows, background, bottom particles and players are
    /// drawn lit, blocks and top particles in their plain colors.
    pub fn draw_game(&mut self, ctx: &mut WgpuContext, pass: &mut LigthRenderPass, shaders: &Shaders)
        requires
            old(self).wf(),
            shaders.bound_to_pass(old(pass)@),
        ensures
            final(self).wf(),
            final(self).model() == old(self).model().drawn(
                Recording { ctx: old(ctx)@, pass: old(pass)@ },
                shaders.model(),
            ),
            (Recording { ctx: final(ctx)@, pass: final(pass)@ }) == old(self).model().recorded(
                Recording { ctx: old(ctx)@, pass: old(pass)@ },
                shaders.model(),
            ),
    {
        self.camera.update_buffers(ctx);
        self.camera.bind(pass);

        shaders.ligth.bind(pass);
        shaders.quad.bind_ligth(pass);

        self.ligths.draw(ctx, pass);
        self.background.draw(ctx, pass);
        self.bottom_particles.draw(ctx, pass);
        self.players.draw(ctx, pass);

        shaders.quad.bind(pass);

        self.blocks.draw(ctx, pass);
        self.top_particles.draw(ctx, pass);
    }
}

/// The layers that are fixed to the window, seen through their own camera.
pub struct FrameLayers {
    pub camera: Camera,
    pub frame: QuadLayer,
    pub ui: QuadLayer,
}

/// The mathematical state of [`FrameLayers`].
pub struct FrameLayersModel {
    pub camera: CachedUniformModel<CameraUniform>,
    pub frame: VecBufferModel<QuadInstance>,
    pub ui: VecBufferModel<QuadInstance>,
}

impl FrameLayersModel {
    /// The context after all layers were created: the camera, then the
    /// two quad layers.
    pub open spec fn creation_context(ctx: ContextView) -> ContextView {
        quad_layer_context(quad_layer_context(Camera::creation_context(ctx)))
    }

    /// The layers as they are created through the context `ctx`.
    pub open spec fn created(ctx: ContextView) -> FrameLayersModel {
        let frame = Camera::creation_context(ctx);
        FrameLayersModel {
            camera: Camera::created(ctx),
            frame: VecBufferModel::<QuadInstance>::created(frame),
            ui: VecBufferModel::<QuadInstance>::created(quad_layer_context(frame)),
        }
    }

    /// The frame after the camera and the plain color shader were bound.
    pub open spec fn bound(self, start: Recording, shaders: ShadersModel) -> Recording {
        start.camera(self.camera).color_quad_shader(shaders)
    }

    /// The frame after the window frame and the interface were drawn.
    pub open spec fn recorded(self, start: Recording, shaders: ShadersModel) -> Recording {
        self.bound(start, shaders).quads(self.frame).quads(self.ui)
    }

    /// The layers after they were drawn: everything is on the device.
    pub open spec fn drawn(self, start: Recording, shaders: ShadersModel) -> FrameLayersModel {
        let bound = self.bound(start, shaders);
        FrameLayersModel {
            camera: self.camera.flushed(),
            frame: self.frame.synced_in(bound.ctx),
            ui: self.ui.synced_in(bound.quads(self.frame).ctx),
        }
    }
}

impl FrameLayers {
    pub open spec fn model(&self) -> FrameLayersModel {
        FrameLayersModel {
            camera: self.camera.model(),
            frame: self.frame.buffer.model(),
            ui: self.ui.buffer.model(),
        }
    }

    /// Every layer can be drawn.
    pub open spec fn wf(&self) -> bool {
        &&& self.camera.wf()
        &&& self.frame.wf()
        &&& self.ui.wf()
    }

    /// Creates the camera and the two quad layers, in this order, all empty.
    pub fn new(ctx: &mut WgpuContext) -> (layers: Self)
        ensures
            layers.wf(),
            layers.model() == FrameLayersModel::created(old(ctx)@),
            final(ctx)@ == FrameLayersModel::creation_context(old(ctx)@),
    {
        let camera = Camera::new(ctx);
        let frame = QuadLayer::new(ctx);
        let ui = QuadLayer::new(ctx);
        FrameLayers { camera, frame, ui }
    }

    /// Draws what is fixed to the window, in plain colors: the camera is
    /// uploaded and bound, then the frame and the interface are drawn.
    pub fn draw_game(&mut self, ctx: &mut WgpuContext, pass: &mut LigthRenderPass, shaders: &Shaders)
        requires
            old(self).wf(),
            shaders.bound_to_pass(old(pass)@),
        ensures
            final(self).wf(),
            final(self).model() == old(self).model().drawn(
                Recording { ctx: old(ctx)@, pass: old(pass)@ },
                shaders.model(),
            ),
            (Recording { ctx: final(ctx)@, pass: final(pass)@ }) == old(self).model().recorded(
                Recording { ctx: old(ctx)@, pass: old(pass)@ },
                shaders.model(),
            ),
    {
        self.camera.update_buffers(ctx);
        self.camera.bind(pass);

        shaders.quad.bind(pass);
        self.frame.draw(ctx, pass);
        self.ui.draw(ctx, pass);
    }
}

} // verus!
