use super::{FrameLayers, FrameLayersModel, GameLayers, GameLayersModel, Recording};
use crate::ligth_pipeline::LigthRenderPass;
use crate::math::Vec2;
use crate::layers::LigthLayerModel;
use crate::shaders::{LigthUniform, Shaders, ShadersModel};
use crate::wgpu_components::{
    BindGroup, BindGroupLayout, Buffer, CachedUniformModel, ContextView, Record, ResourceKind,
    ShaderStages, UniformModel, WgpuContext,
};
use vstd::prelude::*;

verus! {

/// The lobby: a game world with one light, and the window layers above it.
pub struct Lobby {
    pub game_layers: GameLayers,
    pub frame_layers: FrameLayers,
    /// Handle of the light of the lobby.
    pub ligth: usize,
}

/// The mathematical state of a [`Lobby`].
pub struct LobbyModel {
    pub game_layers: GameLayersModel,
    pub frame_layers: FrameLayersModel,
    /// Handle of the light of the lobby.
    pub ligth: usize,
}

impl LobbyModel {
    /// The context after the layers of the lobby were created.
    pub open spec fn layers_context(ctx: ContextView) -> ContextView {
        FrameLayersModel::creation_context(GameLayersModel::creation_context(ctx))
    }

    /// The light of the lobby as it is registered through the context `ctx`.
    pub open spec fn ligth_cell(ctx: ContextView, ligth: LigthUniform) -> CachedUniformModel<
        LigthUniform,
    > {
        CachedUniformModel {
            uniform: UniformModel {
                buffer: Buffer { id: ctx.next() as usize },
                layout: BindGroupLayout { id: (ctx.next() + 1) as usize },
                bind_group: BindGroup { id: (ctx.next() + 2) as usize },
                words: 4,
                visibility: ShaderStages::VertexFragment,
            },
            data: ligth,
            needs_update: false,
            device: ligth.words(),
        }
    }

    /// The lobby as it is created through the context `ctx`: empty layers
    /// and the one light.
    pub open spec fn created(ctx: ContextView, ligth: LigthUniform) -> LobbyModel {
        let layers = GameLayersModel::created(ctx);
        LobbyModel {
            game_layers: GameLayersModel {
                ligths: LigthLayerModel {
                    ligths: seq![Self::ligth_cell(Self::layers_context(ctx), ligth)],
                    ..layers.ligths
                },
                ..layers
            },
            frame_layers: FrameLayersModel::created(GameLayersModel::creation_context(ctx)),
            ligth: 0,
        }
    }

    /// The context after the lobby was created.
    pub open spec fn creation_context(ctx: ContextView, ligth: LigthUniform) -> ContextView {
        Self::layers_context(ctx).extended(
            seq![ResourceKind::Buffer, ResourceKind::BindGroupLayout, ResourceKind::BindGroup],
            Self::ligth_cell(Self::layers_context(ctx), ligth).uniform.creation_requests(
                ligth.words(),
            ),
        )
    }

    /// The lobby after both cameras were told to see `size` of their
    /// world in each direction.
    pub open spec fn resized(self, size: Vec2) -> LobbyModel {
        LobbyModel {
            game_layers: GameLayersModel {
                camera: self.game_layers.camera.updated(
                    crate::camera::CameraUniform { pos: Vec2 { x: 0, y: 0 }, size },
                ),
                ..self.game_layers
            },
            frame_layers: FrameLayersModel {
                camera: self.frame_layers.camera.updated(
                    crate::camera::CameraUniform { pos: Vec2 { x: 0, y: 0 }, size },
                ),
                ..self.frame_layers
            },
            ligth: self.ligth,
        }
    }

    /// The frame after the lobby was drawn: the game world, then the
    /// window layers.
    pub open spec fn recorded(self, start: Recording, shaders: ShadersModel) -> Recording {
        self.frame_layers.recorded(self.game_layers.recorded(start, shaders), shaders)
    }

    /// The lobby after it was drawn.
    pub open spec fn drawn(self, start: Recording, shaders: ShadersModel) -> LobbyModel {
        LobbyModel {
            game_layers: self.game_layers.drawn(start, shaders),
            frame_layers: self.frame_layers.drawn(
                self.game_layers.recorded(start, shaders),
                shaders,
            ),
            ligth: self.ligth,
        }
    }
}

impl Lobby {
    pub open spec fn model(&self) -> LobbyModel {
        LobbyModel {
            game_layers: self.game_layers.model(),
            frame_layers: self.frame_layers.model(),
            ligth: self.ligth,
        }
    }

    /// Every layer can be drawn, and the light of the lobby exists.
    pub open spec fn wf(&self) -> bool {
        &&& self.game_layers.wf()
        &&& self.frame_layers.wf()
        &&& self.ligth < self.game_layers.model().ligths.ligths.len()
    }

    /// Creates the layers of the game world and of the window, and
    /// registers `ligth` as the one light of the lobby.
    pub fn new(ctx: &mut WgpuContext, ligth: LigthUniform) -> (lobby: Self)
        ensures
            lobby.wf(),
            lobby.model() == LobbyModel::created(old(ctx)@, ligth),
            final(ctx)@ == LobbyModel::creation_context(old(ctx)@, ligth),
    {
        let mut game_layers = GameLayers::new(ctx);
        let frame_layers = FrameLayers::new(ctx);
        let handle = game_layers.ligths.add_ligth(ctx, ligth);
        let lobby = Self { game_layers, frame_layers, ligth: handle };
        assert(lobby.model().game_layers.ligths.ligths =~= LobbyModel::created(
            old(ctx)@,
            ligth,
        ).game_layers.ligths.ligths);
        lobby
    }

    /// Both cameras see `size` of their world in each direction.
    pub fn resize(&mut self, size: Vec2)
        requires
            old(self).wf(),
        ensures
            final(self).wf(),
            final(self).model() == old(self).model().resized(size),
    {
        self.game_layers.camera.resize(size);
        self.frame_layers.camera.resize(size);
    }

    /// Draws the game world, then the window layers.
    pub fn draw(&mut self, ctx: &mut WgpuContext, pass: &mut LigthRenderPass, shaders: &Shaders)
        requires
            old(self).wf(),
            shaders.bound_to_pass(old(pass)@),
        ensures
            final(self).wf(),
            final(self).model() == old(self).model().drawn(
                Recording { ctx: old(ctx)@, pass: old(pass)@ },
                shaders.model(),
            ),
            (Recording { ctx: final(ctx)@, pass: final(pass)@ }) == old(self).model().recorded(
                Recording { ctx: old(ctx)@, pass: old(pass)@ },
                shaders.model(),
            ),
            final(pass)@.normal_target() == old(pass)@.normal_target(),
            final(pass)@.lit_target() == old(pass)@.lit_target(),
    {
        self.game_layers.draw_game(ctx, pass, shaders);
        self.frame_layers.draw_game(ctx, pass, shaders);
    }
}

} // verus!
