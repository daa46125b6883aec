use ligth_engine::layers::{LigthLayer, QuadLayer};
use ligth_engine::ligth_pipeline::LigthPipeline;
use ligth_engine::math::{Vec2, ONE};
use ligth_engine::shaders::{LigthUniform, QuadInstance, ShadowInstance};
use ligth_engine::wgpu_components::{
    BindGroup, Buffer, BufferSlice, BufferUsages, Command, RenderPass, Request, TextureFormat,
    TextureView, WgpuContext,
};

fn segment(n: u32) -> ShadowInstance {
    ShadowInstance { a: Vec2::from_bits(n, n + 1), b: Vec2::from_bits(n + 2, n + 3) }
}

fn ligth(n: u32) -> LigthUniform {
    LigthUniform { pos: Vec2::from_bits(n, n + 1), z_index: n + 2, color: n + 3 }
}

fn quad(n: u32) -> QuadInstance {
    QuadInstance::new_color(Vec2::from_bits(n, n), Vec2::from_bits(ONE, ONE), n)
}

fn output() -> TextureView {
    TextureView { id: 900, width: 8, height: 8, format: TextureFormat::Bgra8Unorm }
}

fn recorded(pass: &RenderPass) -> Vec<Command> {
    (0..pass.len()).map(|i| pass.command(i)).collect()
}

#[test]
fn new_ligth_layer_holds_the_sentinel_only() {
    let mut ctx = WgpuContext::new();
    let layer = LigthLayer::new(&mut ctx);
    assert_eq!(layer.shadow_count(), 0);
    assert_eq!(layer.ligth_count(), 0);
    assert_eq!(*layer.get_shadow(0), ShadowInstance::default());
    let requests = ctx.take_requests();
    assert_eq!(requests.len(), 4);
    assert_eq!(
        requests[0],
        Request::CreateBuffer {
            buffer: Buffer { id: 0 },
            usage: BufferUsages { vertex: true, uniform: false, copy_dst: true },
            contents: vec![],
        }
    );
    assert_eq!(
        requests[1],
        Request::CreateBuffer {
            buffer: Buffer { id: 1 },
            usage: BufferUsages { vertex: false, uniform: true, copy_dst: true },
            contents: vec![0],
        }
    );
}

#[test]
fn add_shadow_returns_the_place_of_the_old_sentinel() {
    let mut ctx = WgpuContext::new();
    let mut layer = LigthLayer::new(&mut ctx);
    assert_eq!(layer.add_shadow(segment(10)), 0);
    assert_eq!(layer.add_shadow(segment(20)), 1);
    assert_eq!(layer.add_shadow(segment(30)), 2);
    assert_eq!(layer.shadow_count(), 3);
    assert_eq!(*layer.get_shadow(0), segment(10));
    assert_eq!(*layer.get_shadow(1), segment(20));
    assert_eq!(*layer.get_shadow(2), segment(30));
}

#[test]
fn the_last_segment_is_always_the_sentinel() {
    let mut ctx = WgpuContext::new();
    let mut layer = LigthLayer::new(&mut ctx);
    for n in 0..25u32 {
        let last = *layer.get_shadow(layer.shadow_count());
        assert_eq!(last.a, last.b);
        assert_eq!(last, ShadowInstance::default());
        assert_eq!(layer.shadow_count(), n as usize);
        layer.add_shadow(segment(n + 1));
    }
    let last = *layer.get_shadow(25);
    assert_eq!(last.a, last.b);
}

#[test]
fn moving_a_segment_keeps_the_sentinel() {
    let mut ctx = WgpuContext::new();
    let mut layer = LigthLayer::new(&mut ctx);
    layer.add_shadow(segment(10));
    layer.add_shadow(segment(20));
    *layer.get_shadow_mut(0) = segment(50);
    layer.get_shadow_mut(1).b = Vec2::from_bits(1, 1);
    assert_eq!(*layer.get_shadow(0), segment(50));
    assert_eq!(
        *layer.get_shadow(1),
        ShadowInstance { a: Vec2::from_bits(20, 21), b: Vec2::from_bits(1, 1) }
    );
    assert_eq!(*layer.get_shadow(2), ShadowInstance::default());
    assert_eq!(layer.shadow_count(), 2);
}

#[test]
fn add_ligth_gives_each_ligth_its_own_cell() {
    let mut ctx = WgpuContext::new();
    let mut layer = LigthLayer::new(&mut ctx);
    ctx.take_requests();
    assert_eq!(layer.add_ligth(&mut ctx, ligth(10)), 0);
    assert_eq!(layer.add_ligth(&mut ctx, ligth(20)), 1);
    assert_eq!(layer.ligth_count(), 2);
    assert_eq!(*layer.get_ligth(0).data(), ligth(10));
    assert_eq!(*layer.get_ligth(1).data(), ligth(20));
    assert_eq!(layer.get_ligth(0).uniform().buffer(), Buffer { id: 4 });
    assert_eq!(layer.get_ligth(1).uniform().buffer(), Buffer { id: 7 });
    let requests = ctx.take_requests();
    assert_eq!(requests.len(), 6);
    assert_eq!(
        requests[3],
        Request::CreateBuffer {
            buffer: Buffer { id: 7 },
            usage: BufferUsages { vertex: false, uniform: true, copy_dst: true },
            contents: vec![20, 21, 22, 23],
        }
    );
}

#[test]
fn draw_covers_all_segments_and_the_sentinel_once_per_ligth() {
    let mut ctx = WgpuContext::new();
    let pipeline = LigthPipeline::new(&mut ctx, 8, 8);
    let mut layer = LigthLayer::new(&mut ctx);
    layer.add_ligth(&mut ctx, ligth(10));
    layer.add_ligth(&mut ctx, ligth(20));
    layer.add_shadow(segment(1));
    layer.add_shadow(segment(2));
    layer.add_shadow(segment(3));
    ctx.take_requests();
    let first = ctx.resource_count();

    let out = output();
    let mut frame = pipeline.start_frame(&out);
    let pass = frame.create_render_pass();
    layer.draw(&mut ctx, pass);

    let slice = BufferSlice { buffer: Buffer { id: first }, words: 16 };
    assert_eq!(
        recorded(&pass.ligth),
        vec![
            Command::SetVertexBuffer { slot: 0, slice },
            Command::SetBindGroup { index: 2, group: BindGroup { id: 6 } },
            Command::SetBindGroup { index: 3, group: BindGroup { id: 9 } },
            Command::Draw { vertices: 4, instances: 4 },
            Command::SetBindGroup { index: 3, group: BindGroup { id: 12 } },
            Command::Draw { vertices: 4, instances: 4 },
        ]
    );
    assert_eq!(pass.normal.len(), 0);
    assert_eq!(pass.diffuse.len(), 0);
    assert_eq!(
        ctx.take_requests(),
        vec![
            Request::WriteBuffer { buffer: Buffer { id: 4 }, offset: 0, contents: vec![3] },
            Request::DestroyBuffer { buffer: Buffer { id: 3 } },
            Request::CreateBuffer {
                buffer: Buffer { id: first },
                usage: BufferUsages { vertex: true, uniform: false, copy_dst: true },
                contents: vec![1, 2, 3, 4, 2, 3, 4, 5, 3, 4, 5, 6, 0, 0, 0, 0],
            },
        ]
    );
}

#[test]
fn draw_uploads_only_the_ligths_that_changed() {
    let mut ctx = WgpuContext::new();
    let pipeline = LigthPipeline::new(&mut ctx, 8, 8);
    let mut layer = LigthLayer::new(&mut ctx);
    layer.add_ligth(&mut ctx, ligth(10));
    layer.add_ligth(&mut ctx, ligth(20));
    layer.add_ligth(&mut ctx, ligth(30));
    let out = output();
    {
        let mut frame = pipeline.start_frame(&out);
        let pass = frame.create_render_pass();
        layer.draw(&mut ctx, pass);
    }
    ctx.take_requests();

    layer.get_ligth_mut(1).update(ligth(40));
    layer.get_ligth_mut(1).update(ligth(50));
    layer.get_ligth_mut(2).data_mut().color = 7;
    let mut frame = pipeline.start_frame(&out);
    let pass = frame.create_render_pass();
    layer.draw(&mut ctx, pass);
    assert_eq!(
        ctx.take_requests(),
        vec![
            Request::WriteBuffer { buffer: Buffer { id: 4 }, offset: 0, contents: vec![0] },
            Request::WriteBuffer {
                buffer: layer.get_ligth(1).uniform().buffer(),
                offset: 0,
                contents: vec![50, 51, 52, 53],
            },
            Request::WriteBuffer {
                buffer: layer.get_ligth(2).uniform().buffer(),
                offset: 0,
                contents: vec![30, 31, 32, 7],
            },
        ]
    );
    assert!(!layer.get_ligth(1).needs_update());
    assert_eq!(pass.ligth.len(), 2 + 3 * 2);
}

#[test]
fn draw_without_ligths_binds_but_draws_nothing() {
    let mut ctx = WgpuContext::new();
    let pipeline = LigthPipeline::new(&mut ctx, 8, 8);
    let mut layer = LigthLayer::new(&mut ctx);
    let out = output();
    let mut frame = pipeline.start_frame(&out);
    let pass = frame.create_render_pass();
    layer.draw(&mut ctx, pass);
    let commands = recorded(&pass.ligth);
    assert_eq!(commands.len(), 2);
    assert!(commands.iter().all(|c| !matches!(c, Command::Draw { .. })));
}

#[test]
fn new_segment_after_a_draw_is_uploaded_with_the_sentinel() {
    let mut ctx = WgpuContext::new();
    let pipeline = LigthPipeline::new(&mut ctx, 8, 8);
    let mut layer = LigthLayer::new(&mut ctx);
    layer.add_shadow(segment(1));
    let out = output();
    {
        let mut frame = pipeline.start_frame(&out);
        let pass = frame.create_render_pass();
        layer.draw(&mut ctx, pass);
    }
    ctx.take_requests();
    assert_eq!(layer.add_shadow(segment(5)), 1);
    let mut frame = pipeline.start_frame(&out);
    let pass = frame.create_render_pass();
    layer.draw(&mut ctx, pass);
    let requests = ctx.take_requests();
    assert_eq!(requests.len(), 3);
    assert_eq!(
        requests[0],
        Request::WriteBuffer { buffer: Buffer { id: 4 }, offset: 0, contents: vec![2] }
    );
    match &requests[2] {
        Request::CreateBuffer { contents, .. } => {
            assert_eq!(contents, &vec![1, 2, 3, 4, 5, 6, 7, 8, 0, 0, 0, 0])
        }
        other => panic!("expected a new buffer, got {:?}", other),
    }
    assert_eq!(recorded(&pass.ligth).len(), 2);
}

#[test]
fn empty_quad_layer_draws_nothing() {
    let mut ctx = WgpuContext::new();
    let pipeline = LigthPipeline::new(&mut ctx, 8, 8);
    let mut layer = QuadLayer::new(&mut ctx);
    ctx.take_requests();
    let out = output();
    let mut frame = pipeline.start_frame(&out);
    let pass = frame.create_render_pass();
    layer.draw(&mut ctx, pass);
    assert_eq!(pass.normal.len() + pass.ligth.len() + pass.diffuse.len(), 0);
    assert_eq!(ctx.pending(), 0);
}

#[test]
fn quad_layer_draws_normal_and_diffuse_from_one_upload() {
    let mut ctx = WgpuContext::new();
    let pipeline = LigthPipeline::new(&mut ctx, 8, 8);
    let mut layer = QuadLayer::new(&mut ctx);
    ctx.take_requests();
    layer.buffer.push(quad(1));
    layer.buffer.push(quad(2));
    let out = output();
    let mut frame = pipeline.start_frame(&out);
    let pass = frame.create_render_pass();
    layer.draw(&mut ctx, pass);
    let slice = BufferSlice { buffer: layer.buffer.buffer(), words: 20 };
    let expected = vec![
        Command::SetVertexBuffer { slot: 0, slice },
        Command::Draw { vertices: 4, instances: 2 },
    ];
    assert_eq!(recorded(&pass.normal), expected);
    assert_eq!(recorded(&pass.diffuse), expected);
    assert_eq!(pass.ligth.len(), 0);
    assert_eq!(ctx.pending(), 2);
    ctx.take_requests();
    layer.draw(&mut ctx, pass);
    assert_eq!(ctx.pending(), 0);
    assert_eq!(pass.normal.len(), 4);
}

#[test]
fn quad_layer_edits_reach_its_buffer() {
    let mut ctx = WgpuContext::new();
    let mut layer = QuadLayer::new(&mut ctx);
    assert_eq!(layer.push(quad(1)), 0);
    assert_eq!(layer.push(quad(2)), 1);
    assert_eq!(layer.len(), 2);
    layer.get_mut(1).color = 99;
    assert_eq!(layer.get_ref(1).color, 99);
    assert_eq!(*layer.get_ref(0), quad(1));
    assert_eq!(layer.buffer.len(), 2);
    layer.clear();
    assert_eq!(layer.len(), 0);
    assert_eq!(layer.buffer.dirty(), ligth_engine::wgpu_components::Dirty::Full);
}
