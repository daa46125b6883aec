use ligth_engine::ligth_pipeline::{FrameState, LigthPipeline, LigthTextures};
use ligth_engine::wgpu_components::{
    BindGroup, Buffer, BufferSlice, ClearColor, Command, PassDescriptor, RecordedPass,
    RenderPipeline, Request, ResourceKind, TextureFormat, TextureView, WgpuContext,
};

fn view(id: usize, width: u32, height: u32, format: TextureFormat) -> TextureView {
    TextureView { id, width, height, format }
}

fn targets(first: usize, width: u32, height: u32) -> LigthTextures {
    LigthTextures {
        normal: view(first, width, height, TextureFormat::Rgb10a2Unorm),
        ligth: view(first + 1, width, height, TextureFormat::Rgb10a2Unorm),
        ligth_depth: view(first + 2, width, height, TextureFormat::Depth32Float),
    }
}

fn output() -> TextureView {
    view(1000, 800, 600, TextureFormat::Bgra8Unorm)
}

#[test]
fn pipeline_creates_three_targets_of_the_given_size() {
    let mut ctx = WgpuContext::new();
    let pipeline = LigthPipeline::new(&mut ctx, 800, 600);
    assert_eq!(pipeline.textures, targets(0, 800, 600));
    assert_eq!(ctx.resource_count(), 3);
    for id in 0..3 {
        assert_eq!(ctx.resource_kind(id), Some(ResourceKind::Texture));
    }
    assert_eq!(
        ctx.take_requests(),
        vec![
            Request::CreateTexture { view: pipeline.textures.normal },
            Request::CreateTexture { view: pipeline.textures.ligth },
            Request::CreateTexture { view: pipeline.textures.ligth_depth },
        ]
    );
}

#[test]
fn resize_recreates_every_target_at_the_new_size() {
    let mut ctx = WgpuContext::new();
    let mut pipeline = LigthPipeline::new(&mut ctx, 800, 600);
    let old = pipeline.textures;
    ctx.take_requests();
    pipeline.resize(&mut ctx, 1920, 1080);
    let new = pipeline.textures;
    assert_eq!(new, targets(3, 1920, 1080));
    assert_ne!(new.normal.id, old.normal.id);
    assert_ne!(new.ligth.id, old.ligth.id);
    assert_ne!(new.ligth_depth.id, old.ligth_depth.id);
    assert_eq!(
        ctx.take_requests(),
        vec![
            Request::DestroyTexture { view: old.normal },
            Request::DestroyTexture { view: old.ligth },
            Request::DestroyTexture { view: old.ligth_depth },
            Request::CreateTexture { view: new.normal },
            Request::CreateTexture { view: new.ligth },
            Request::CreateTexture { view: new.ligth_depth },
        ]
    );
}

#[test]
fn resize_to_the_same_size_still_replaces_the_targets() {
    let mut ctx = WgpuContext::new();
    let mut pipeline = LigthPipeline::new(&mut ctx, 64, 64);
    pipeline.resize(&mut ctx, 64, 64);
    assert_eq!(pipeline.textures, targets(3, 64, 64));
    assert_eq!(ctx.pending(), 9);
}

#[test]
fn frame_starts_before_recording() {
    let mut ctx = WgpuContext::new();
    let pipeline = LigthPipeline::new(&mut ctx, 800, 600);
    ctx.take_requests();
    let out = output();
    let frame = pipeline.start_frame(&out);
    assert_eq!(frame.current_state(), FrameState::Start);
    assert_eq!(ctx.pending(), 0);
}

#[test]
fn passes_clear_their_own_targets() {
    let mut ctx = WgpuContext::new();
    let pipeline = LigthPipeline::new(&mut ctx, 800, 600);
    let out = output();
    let mut frame = pipeline.start_frame(&out);
    {
        let pass = frame.create_render_pass();
        assert_eq!(
            pass.normal.descriptor(),
            PassDescriptor {
                color: pipeline.textures.normal,
                clear: ClearColor::FlatNormal,
                depth: None,
            }
        );
        assert_eq!(
            pass.ligth.descriptor(),
            PassDescriptor {
                color: pipeline.textures.ligth,
                clear: ClearColor::Black,
                depth: Some(pipeline.textures.ligth_depth),
            }
        );
        assert_eq!(
            pass.diffuse.descriptor(),
            PassDescriptor { color: out, clear: ClearColor::Black, depth: None }
        );
        assert_eq!(pass.normal.len(), 0);
        assert_eq!(pass.ligth.len(), 0);
        assert_eq!(pass.diffuse.len(), 0);
    }
    assert_eq!(frame.current_state(), FrameState::Recording);
}

#[test]
fn resolve_submits_ligth_before_diffuse() {
    let mut ctx = WgpuContext::new();
    let pipeline = LigthPipeline::new(&mut ctx, 800, 600);
    ctx.take_requests();
    let out = output();
    let mut frame = pipeline.start_frame(&out);
    let slice = BufferSlice { buffer: Buffer { id: 7 }, words: 40 };
    {
        let pass = frame.create_render_pass();
        pass.diffuse.set_pipeline(RenderPipeline { id: 3 });
        pass.diffuse.draw(4, 9);
        pass.ligth.set_bind_group(2, BindGroup { id: 5 });
        pass.normal.set_vertex_buffer(0, slice);
        pass.ligth.draw(4, 2);
    }
    frame.resolve(&mut ctx);
    let normal = RecordedPass {
        descriptor: PassDescriptor {
            color: pipeline.textures.normal,
            clear: ClearColor::FlatNormal,
            depth: None,
        },
        commands: vec![Command::SetVertexBuffer { slot: 0, slice }],
    };
    let ligth = RecordedPass {
        descriptor: PassDescriptor {
            color: pipeline.textures.ligth,
            clear: ClearColor::Black,
            depth: Some(pipeline.textures.ligth_depth),
        },
        commands: vec![
            Command::SetBindGroup { index: 2, group: BindGroup { id: 5 } },
            Command::Draw { vertices: 4, instances: 2 },
        ],
    };
    let diffuse = RecordedPass {
        descriptor: PassDescriptor { color: out, clear: ClearColor::Black, depth: None },
        commands: vec![
            Command::SetPipeline { pipeline: RenderPipeline { id: 3 } },
            Command::Draw { vertices: 4, instances: 9 },
        ],
    };
    assert_eq!(
        ctx.take_requests(),
        vec![
            Request::Submit { passes: vec![normal, ligth] },
            Request::Submit { passes: vec![diffuse] },
        ]
    );
}

#[test]
fn uploads_of_a_frame_come_before_its_submissions() {
    let mut ctx = WgpuContext::new();
    let pipeline = LigthPipeline::new(&mut ctx, 16, 16);
    ctx.take_requests();
    let out = output();
    let mut frame = pipeline.start_frame(&out);
    {
        let pass = frame.create_render_pass();
        ctx.request(Request::WriteBuffer { buffer: Buffer { id: 9 }, offset: 0, contents: vec![1] });
        pass.ligth.draw(4, 1);
    }
    frame.resolve(&mut ctx);
    let requests = ctx.take_requests();
    assert_eq!(requests.len(), 3);
    assert!(matches!(requests[0], Request::WriteBuffer { .. }));
    let first_targets: Vec<usize> = match &requests[1] {
        Request::Submit { passes } => passes.iter().map(|p| p.descriptor.color.id).collect(),
        _ => unreachable!(),
    };
    let second_targets: Vec<usize> = match &requests[2] {
        Request::Submit { passes } => passes.iter().map(|p| p.descriptor.color.id).collect(),
        _ => unreachable!(),
    };
    assert_eq!(first_targets, vec![pipeline.textures.normal.id, pipeline.textures.ligth.id]);
    assert_eq!(second_targets, vec![out.id]);
}

#[test]
fn an_empty_frame_is_submitted_all_the_same() {
    let mut ctx = WgpuContext::new();
    let pipeline = LigthPipeline::new(&mut ctx, 16, 16);
    ctx.take_requests();
    let out = output();
    let mut frame = pipeline.start_frame(&out);
    frame.create_render_pass();
    frame.resolve(&mut ctx);
    let requests = ctx.take_requests();
    assert_eq!(requests.len(), 2);
    match (&requests[0], &requests[1]) {
        (Request::Submit { passes: first }, Request::Submit { passes: second }) => {
            assert_eq!(first.len(), 2);
            assert_eq!(second.len(), 1);
            assert!(first.iter().chain(second.iter()).all(|p| p.commands.is_empty()));
        }
        _ => unreachable!(),
    }
}
