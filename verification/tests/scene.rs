use ligth_engine::error::Error;
use ligth_engine::input::WindowEvent;
use ligth_engine::ligth_pipeline::LigthPipeline;
use ligth_engine::math::{Vec2, ONE};
use ligth_engine::scene_manager::SceneManager;
use ligth_engine::scenes::{FrameLayers, GameLayers, Lobby};
use ligth_engine::shaders::{
    LigthUniform, QuadInstance, QuadShaderSources, ShaderSources, Shaders, ShadowInstance,
};
use ligth_engine::texture_atlas::{Texture, TextureAtlas};
use ligth_engine::wgpu_components::{
    BindGroup, Command, RecordedPass, RenderPass, RenderPipeline, Request, TextureFormat,
    TextureView, WgpuContext,
};

fn sources() -> ShaderSources {
    ShaderSources {
        ligth: "ligth".to_string(),
        quad: QuadShaderSources {
            normal: "normal".to_string(),
            diffuse: "diffuse".to_string(),
            color: "color".to_string(),
        },
    }
}

fn atlas(ctx: &mut WgpuContext) -> TextureAtlas {
    let diffuse = Texture::external(ctx, 512, 512, TextureFormat::Bgra8Unorm);
    let normal = Texture::external(ctx, 512, 512, TextureFormat::Bgra8Unorm);
    TextureAtlas::new(diffuse, normal)
}

fn ligth() -> LigthUniform {
    LigthUniform {
        pos: Vec2::zero(),
        z_index: 0.2f32.to_bits(),
        color: LigthUniform::color(130, 130, 130),
    }
}

fn quad(n: u32) -> QuadInstance {
    QuadInstance::new_color(Vec2::from_bits(n, n), Vec2::from_bits(ONE, ONE), n)
}

fn output() -> TextureView {
    TextureView { id: 900, width: 800, height: 600, format: TextureFormat::Bgra8Unorm }
}

fn recorded(pass: &RenderPass) -> Vec<Command> {
    (0..pass.len()).map(|i| pass.command(i)).collect()
}

fn manager(ctx: &mut WgpuContext) -> SceneManager {
    let atlas = atlas(ctx);
    match SceneManager::new(ctx, 800, 600, Ok(atlas), sources(), ligth()) {
        Ok(manager) => manager,
        Err(error) => panic!("{}", error.message()),
    }
}

fn submissions(requests: &[Request]) -> Vec<&Vec<RecordedPass>> {
    requests
        .iter()
        .filter_map(|r| match r {
            Request::Submit { passes } => Some(passes),
            _ => None,
        })
        .collect()
}

fn draws(pass: &RecordedPass) -> Vec<u32> {
    pass.commands
        .iter()
        .filter_map(|c| match c {
            Command::Draw { instances, .. } => Some(*instances),
            _ => None,
        })
        .collect()
}

#[test]
fn game_layers_are_created_empty() {
    let mut ctx = WgpuContext::new();
    let layers = GameLayers::new(&mut ctx);
    assert_eq!(layers.background.buffer.len(), 0);
    assert_eq!(layers.bottom_particles.buffer.len(), 0);
    assert_eq!(layers.players.buffer.len(), 0);
    assert_eq!(layers.blocks.buffer.len(), 0);
    assert_eq!(layers.top_particles.buffer.len(), 0);
    assert_eq!(layers.ligths.shadow_count(), 0);
    assert_eq!(layers.ligths.ligth_count(), 0);
    assert_eq!(ctx.resource_count(), 3 + 4 + 5);
    assert_eq!(ctx.pending(), 3 + 4 + 5);
}

#[test]
fn frame_layers_are_created_empty() {
    let mut ctx = WgpuContext::new();
    let layers = FrameLayers::new(&mut ctx);
    assert_eq!(layers.frame.buffer.len(), 0);
    assert_eq!(layers.ui.buffer.len(), 0);
    assert_eq!(ctx.resource_count(), 5);
    assert_eq!(ctx.pending(), 5);
}

#[test]
fn game_layers_draw_in_layer_order() {
    let mut ctx = WgpuContext::new();
    let pipeline = LigthPipeline::new(&mut ctx, 800, 600);
    let atlas = atlas(&mut ctx);
    let shaders = Shaders::new(&mut ctx, &pipeline.textures, Ok(atlas), sources()).unwrap();
    let mut layers = GameLayers::new(&mut ctx);
    layers.ligths.add_ligth(&mut ctx, ligth());
    layers.ligths.add_shadow(ShadowInstance { a: Vec2::from_bits(1, 2), b: Vec2::from_bits(3, 4) });
    layers.background.buffer.push(quad(1));
    layers.players.buffer.push(quad(2));
    layers.players.buffer.push(quad(3));
    layers.blocks.buffer.push(quad(4));
    layers.blocks.buffer.push(quad(5));
    layers.blocks.buffer.push(quad(6));
    ctx.take_requests();

    let out = output();
    let mut frame = pipeline.start_frame(&out);
    let pass = frame.create_render_pass();
    layers.draw_game(&mut ctx, pass, &shaders);

    let camera = Command::SetBindGroup { index: 1, group: BindGroup { id: 33 } };
    let kinds = |commands: &[Command]| -> Vec<String> {
        commands
            .iter()
            .map(|c| match c {
                Command::SetPipeline { pipeline } => format!("pipeline {}", pipeline.id),
                Command::SetBindGroup { index, group } => format!("group {} {}", index, group.id),
                Command::SetVertexBuffer { slice, .. } => format!("buffer {}", slice.words),
                Command::Draw { instances, .. } => format!("draw {}", instances),
            })
            .collect()
    };
    assert_eq!(recorded(&pass.normal)[0], camera);
    assert_eq!(
        kinds(&recorded(&pass.normal)),
        vec![
            "group 1 33", "pipeline 17", "group 0 18", "buffer 10", "draw 1", "buffer 20",
            "draw 2", "buffer 30", "draw 3",
        ]
    );
    assert_eq!(
        kinds(&recorded(&pass.ligth)),
        vec![
            "group 1 33", "pipeline 11", "group 0 12", "buffer 8", "group 2 37", "group 3 45",
            "draw 2",
        ]
    );
    assert_eq!(
        kinds(&recorded(&pass.diffuse)),
        vec![
            "group 1 33", "pipeline 23", "group 0 24", "buffer 10", "draw 1", "buffer 20",
            "draw 2", "pipeline 29", "group 0 30", "buffer 30", "draw 3",
        ]
    );
    assert_eq!(RenderPipeline { id: 17 }.id, 17);
}

#[test]
fn lobby_has_one_ligth_and_draws_both_worlds() {
    let mut ctx = WgpuContext::new();
    let pipeline = LigthPipeline::new(&mut ctx, 800, 600);
    let atlas = atlas(&mut ctx);
    let shaders = Shaders::new(&mut ctx, &pipeline.textures, Ok(atlas), sources()).unwrap();
    let mut lobby = Lobby::new(&mut ctx, ligth());
    assert_eq!(lobby.ligth, 0);
    assert_eq!(lobby.game_layers.ligths.ligth_count(), 1);
    assert_eq!(*lobby.game_layers.ligths.get_ligth(0).data(), ligth());
    lobby.frame_layers.ui.buffer.push(quad(1));
    ctx.take_requests();

    let out = output();
    let mut frame = pipeline.start_frame(&out);
    let pass = frame.create_render_pass();
    lobby.draw(&mut ctx, pass, &shaders);
    let diffuse = recorded(&pass.diffuse);
    assert_eq!(diffuse.last(), Some(&Command::Draw { vertices: 4, instances: 1 }));
    let cameras: Vec<&Command> =
        diffuse.iter().filter(|c| matches!(c, Command::SetBindGroup { index: 1, .. })).collect();
    assert_eq!(cameras.len(), 2);
    assert_ne!(cameras[0], cameras[1]);
}

#[test]
fn lobby_resize_reaches_both_cameras() {
    let mut ctx = WgpuContext::new();
    let mut lobby = Lobby::new(&mut ctx, ligth());
    let view = Vec2::from_bits(0.75f32.to_bits(), ONE);
    lobby.resize(view);
    assert_eq!(lobby.game_layers.camera.data().size, view);
    assert_eq!(lobby.frame_layers.camera.data().size, view);
    assert_eq!(lobby.game_layers.camera.data().pos, Vec2::zero());
}

#[test]
fn scene_manager_fails_without_atlas() {
    let mut ctx = WgpuContext::new();
    let failed =
        SceneManager::new(&mut ctx, 800, 600, Err(Error::new("disk")), sources(), ligth());
    match failed {
        Ok(_) => panic!("a manager without atlas"),
        Err(error) => assert_eq!(error.message(), "disk => Unable to load texture atlas"),
    }
    assert_eq!(ctx.resource_count(), 3 + 8);
}

#[test]
fn scene_manager_starts_with_bound_shaders() {
    let mut ctx = WgpuContext::new();
    let manager = manager(&mut ctx);
    assert!(manager.shaders_are_bound());
    assert_eq!(manager.ligth_textures().normal.width, 800);
    assert_eq!(manager.ligth_textures().ligth.height, 600);
    assert_eq!(manager.scene().game_layers.ligths.ligth_count(), 1);
    assert_eq!(ctx.resource_count(), 2 + 3 + 26 + 20);
}

#[test]
fn frame_ends_with_ligth_then_diffuse_submission() {
    let mut ctx = WgpuContext::new();
    let mut manager = manager(&mut ctx);
    manager.scene_mut().game_layers.background.buffer.push(quad(1));
    manager.scene_mut().game_layers.ligths.add_shadow(ShadowInstance {
        a: Vec2::from_bits(1, 1),
        b: Vec2::from_bits(2, 2),
    });
    ctx.take_requests();
    let out = output();
    manager.draw(&mut ctx, &out);
    let requests = ctx.take_requests();
    let count = requests.len();
    assert!(count >= 2);
    assert!(requests[..count - 2].iter().all(|r| !matches!(r, Request::Submit { .. })));
    let submitted = submissions(&requests);
    assert_eq!(submitted.len(), 2);
    let targets = manager.ligth_textures();
    assert_eq!(submitted[0].len(), 2);
    assert_eq!(submitted[0][0].descriptor.color, targets.normal);
    assert_eq!(submitted[0][1].descriptor.color, targets.ligth);
    assert_eq!(submitted[0][1].descriptor.depth, Some(targets.ligth_depth));
    assert_eq!(submitted[1].len(), 1);
    assert_eq!(submitted[1][0].descriptor.color, out);
    assert_eq!(draws(&submitted[0][0]), vec![1]);
    assert_eq!(draws(&submitted[0][1]), vec![2]);
    assert_eq!(draws(&submitted[1][0]), vec![1]);
}

#[test]
fn second_frame_without_changes_uploads_only_the_sentinel_index() {
    let mut ctx = WgpuContext::new();
    let mut manager = manager(&mut ctx);
    manager.scene_mut().game_layers.players.buffer.push(quad(1));
    let out = output();
    manager.draw(&mut ctx, &out);
    ctx.take_requests();
    let resources = ctx.resource_count();
    manager.draw(&mut ctx, &out);
    let requests = ctx.take_requests();
    assert_eq!(requests.len(), 3);
    assert!(matches!(&requests[0], Request::WriteBuffer { contents, .. } if contents == &vec![0]));
    assert!(matches!(requests[1], Request::Submit { .. }));
    assert!(matches!(requests[2], Request::Submit { .. }));
    assert_eq!(ctx.resource_count(), resources);
}

#[test]
fn resize_rebinds_every_shader_to_the_new_targets() {
    let mut ctx = WgpuContext::new();
    let mut manager = manager(&mut ctx);
    let old = manager.ligth_textures();
    ctx.take_requests();
    let view = Vec2::from_bits((1080.0f32 / 1920.0f32).to_bits(), ONE);
    manager.resize(&mut ctx, 1920, 1080, view);
    let new = manager.ligth_textures();
    assert_eq!((new.normal.width, new.normal.height), (1920, 1080));
    assert_eq!((new.ligth.width, new.ligth.height), (1920, 1080));
    assert_eq!((new.ligth_depth.width, new.ligth_depth.height), (1920, 1080));
    assert_ne!(new.normal.id, old.normal.id);
    assert!(manager.shaders_are_bound());
    assert_eq!(manager.scene().game_layers.camera.data().size, view);
    assert_eq!(manager.scene().frame_layers.camera.data().size, view);

    let requests = ctx.take_requests();
    assert_eq!(requests.len(), 3 + 3 + 6);
    assert_eq!(requests[0], Request::DestroyTexture { view: old.normal });
    assert_eq!(requests[3], Request::CreateTexture { view: new.normal });
    let sampled: Vec<usize> = requests[6..]
        .iter()
        .filter_map(|r| match r {
            Request::CreateBindGroup { entries, .. } => match entries[1].resource {
                ligth_engine::wgpu_components::BindingResource::TextureView(view) => Some(view.id),
                _ => None,
            },
            _ => None,
        })
        .collect();
    assert_eq!(sampled, vec![new.normal.id, new.ligth.id, new.ligth.id]);

    let out = output();
    manager.draw(&mut ctx, &out);
    let requests = ctx.take_requests();
    let submitted = submissions(&requests);
    assert_eq!(submitted[0][0].descriptor.color, new.normal);
    assert_eq!(submitted[0][1].descriptor.color, new.ligth);
}

#[test]
fn typed_text_lasts_until_the_frame_is_drawn() {
    let mut ctx = WgpuContext::new();
    let mut manager = manager(&mut ctx);
    assert!(manager.handle_event(&WindowEvent::ReceivedCharacter('o')));
    assert!(manager.handle_event(&WindowEvent::ReceivedCharacter('k')));
    assert!(!manager.handle_event(&WindowEvent::Other));
    assert_eq!(manager.propagate_events(), Some("ok"));
    let out = output();
    manager.draw(&mut ctx, &out);
    assert_eq!(manager.propagate_events(), None);
}
