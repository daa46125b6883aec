use ligth_engine::error::Error;
use ligth_engine::ligth_pipeline::LigthPipeline;
use ligth_engine::math::{Vec2, MINUS_ONE};
use ligth_engine::shaders::{
    LigthShader, LigthUniform, QuadInstance, QuadShader, QuadShaderSources, ShaderSources, Shaders,
    ShadowInstance,
};
use ligth_engine::texture_atlas::{Texture, TextureAtlas};
use ligth_engine::wgpu_components::{
    BindGroup, BindGroupEntry, BindGroupLayout, BindGroupLayoutEntry, BindingResource, BindingType,
    BlendState, Command, DepthStencilState, RenderPipeline, Request, ResourceKind, Sampler, Shader,
    ShaderDescriptor, ShaderModule, ShaderStages, TextureFormat, TextureView, VertexAttribute,
    VertexBufferLayout, VertexFormat, WgpuContext,
};

fn uniform_layout(id: usize, visibility: ShaderStages) -> Request {
    Request::CreateBindGroupLayout {
        layout: BindGroupLayout { id },
        entries: vec![BindGroupLayoutEntry { binding: 0, visibility, ty: BindingType::UniformBuffer }],
    }
}

fn texture_layout(id: usize, textures: u32) -> Request {
    let mut entries = vec![BindGroupLayoutEntry {
        binding: 0,
        visibility: ShaderStages::Fragment,
        ty: BindingType::FilteringSampler,
    }];
    for binding in 1..=textures {
        entries.push(BindGroupLayoutEntry {
            binding,
            visibility: ShaderStages::Fragment,
            ty: BindingType::FloatTexture2d,
        });
    }
    Request::CreateBindGroupLayout { layout: BindGroupLayout { id }, entries }
}

fn texture_group(id: usize, layout: usize, sampler: usize, textures: &[TextureView]) -> Request {
    let mut entries = vec![BindGroupEntry {
        binding: 0,
        resource: BindingResource::Sampler(Sampler { id: sampler }),
    }];
    for (i, view) in textures.iter().enumerate() {
        entries.push(BindGroupEntry {
            binding: i as u32 + 1,
            resource: BindingResource::TextureView(*view),
        });
    }
    Request::CreateBindGroup {
        group: BindGroup { id },
        layout: BindGroupLayout { id: layout },
        entries,
    }
}

fn quad_attributes() -> Vec<VertexAttribute> {
    vec![
        VertexAttribute { format: VertexFormat::Unorm8x4, offset: 0, shader_location: 0 },
        VertexAttribute { format: VertexFormat::Float32, offset: 4, shader_location: 1 },
        VertexAttribute { format: VertexFormat::Float32x2, offset: 8, shader_location: 2 },
        VertexAttribute { format: VertexFormat::Float32x2, offset: 16, shader_location: 3 },
        VertexAttribute { format: VertexFormat::Float32x2, offset: 24, shader_location: 4 },
        VertexAttribute { format: VertexFormat::Float32x2, offset: 32, shader_location: 5 },
    ]
}

fn shadow_attributes() -> Vec<VertexAttribute> {
    vec![
        VertexAttribute { format: VertexFormat::Float32x2, offset: 0, shader_location: 0 },
        VertexAttribute { format: VertexFormat::Float32x2, offset: 8, shader_location: 1 },
    ]
}

/// The requests of one quad shader whose first handle is `first`.
fn quad_stage(first: usize, src: &str, textures: &[TextureView], format: TextureFormat) -> Vec<Request> {
    vec![
        uniform_layout(first, ShaderStages::Vertex),
        Request::CreateShaderModule { module: ShaderModule { id: first + 1 }, source: src.to_string() },
        Request::CreateSampler { sampler: Sampler { id: first + 2 } },
        texture_layout(first + 3, textures.len() as u32),
        Request::CreateRenderPipeline {
            pipeline: RenderPipeline { id: first + 4 },
            module: ShaderModule { id: first + 1 },
            layouts: vec![BindGroupLayout { id: first + 3 }, BindGroupLayout { id: first }],
            array_stride: 40,
            attributes: quad_attributes(),
            output_format: format,
            blend: BlendState::AlphaBlending,
            depth_stencil: None,
        },
        texture_group(first + 5, first + 3, first + 2, textures),
    ]
}

fn ligth_stage(first: usize, src: &str, normal: TextureView) -> Vec<Request> {
    vec![
        uniform_layout(first, ShaderStages::Vertex),
        uniform_layout(first + 1, ShaderStages::Vertex),
        uniform_layout(first + 2, ShaderStages::VertexFragment),
        Request::CreateShaderModule { module: ShaderModule { id: first + 3 }, source: src.to_string() },
        Request::CreateSampler { sampler: Sampler { id: first + 4 } },
        texture_layout(first + 5, 1),
        Request::CreateRenderPipeline {
            pipeline: RenderPipeline { id: first + 6 },
            module: ShaderModule { id: first + 3 },
            layouts: vec![
                BindGroupLayout { id: first + 5 },
                BindGroupLayout { id: first },
                BindGroupLayout { id: first + 1 },
                BindGroupLayout { id: first + 2 },
            ],
            array_stride: 16,
            attributes: shadow_attributes(),
            output_format: TextureFormat::Rgb10a2Unorm,
            blend: BlendState::Additive,
            depth_stencil: Some(DepthStencilState::LessDepth32Float),
        },
        texture_group(first + 7, first + 5, first + 4, &[normal]),
    ]
}

fn atlas(ctx: &mut WgpuContext) -> TextureAtlas {
    let diffuse = Texture::external(ctx, 512, 512, TextureFormat::Bgra8Unorm);
    let normal = Texture::external(ctx, 512, 512, TextureFormat::Bgra8Unorm);
    TextureAtlas::new(diffuse, normal)
}

fn quad_sources() -> QuadShaderSources {
    QuadShaderSources {
        normal: "normal".to_string(),
        diffuse: "diffuse".to_string(),
        color: "color".to_string(),
    }
}

fn sources() -> ShaderSources {
    ShaderSources { ligth: "ligth".to_string(), quad: quad_sources() }
}

#[test]
fn color_packs_three_ten_bit_channels() {
    assert_eq!(LigthUniform::color(130, 130, 130), 0x0822_0882);
    assert_eq!(LigthUniform::color(0, 0, 0), 0);
    assert_eq!(LigthUniform::color(1, 2, 3), (1 << 20) | (2 << 10) | 3);
    assert_eq!(LigthUniform::color(0x3FF, 0x3FF, 0x3FF), 0x3FFF_FFFF);
}

#[test]
fn color_drops_the_bits_above_the_tenth() {
    assert_eq!(LigthUniform::color(0xFFFF, 0, 0), 0x3FF << 20);
    assert_eq!(LigthUniform::color(0x400, 0x401, 0x7FF), (1 << 10) | 0x3FF);
    assert_eq!(LigthUniform::color(0, 0xFC00, 0), 0);
}

#[test]
fn shadow_layout_is_two_points() {
    assert_eq!(
        ShadowInstance::desc(),
        VertexBufferLayout { array_stride: 16, attributes: shadow_attributes() }
    );
}

#[test]
fn default_shadow_is_the_degenerate_sentinel() {
    let sentinel = ShadowInstance::default();
    assert_eq!(sentinel.a, sentinel.b);
    assert_eq!(sentinel, ShadowInstance { a: Vec2::zero(), b: Vec2::zero() });
}

#[test]
fn quad_layout_is_packed_in_forty_bytes() {
    let layout = QuadInstance::desc();
    assert_eq!(layout, VertexBufferLayout { array_stride: 40, attributes: quad_attributes() });
}

#[test]
fn new_color_marks_the_quad_as_untextured() {
    assert_eq!((-1.0f32).to_bits(), MINUS_ONE);
    let pos = Vec2::from_bits(3, 4);
    let size = Vec2::from_bits(5, 6);
    assert_eq!(
        QuadInstance::new_color(pos, size, 0xAABBCCDD),
        QuadInstance {
            color: 0xAABBCCDD,
            angle: 0,
            pos,
            size,
            tex_pos: Vec2::from_bits(MINUS_ONE, 0),
            tex_size: Vec2::zero(),
        }
    );
}

#[test]
fn new_tex_is_upright_and_untinted() {
    let quad = QuadInstance::new_tex(
        Vec2::from_bits(1, 2),
        Vec2::from_bits(3, 4),
        Vec2::from_bits(5, 6),
        Vec2::from_bits(7, 8),
    );
    assert_eq!(
        quad,
        QuadInstance {
            color: 0,
            angle: 0,
            pos: Vec2::from_bits(1, 2),
            size: Vec2::from_bits(3, 4),
            tex_pos: Vec2::from_bits(5, 6),
            tex_size: Vec2::from_bits(7, 8),
        }
    );
}

#[test]
fn shader_numbers_its_bindings_from_the_sampler_on() {
    let mut ctx = WgpuContext::new();
    let a = Texture::external(&mut ctx, 4, 4, TextureFormat::Bgra8Unorm).view;
    let b = Texture::external(&mut ctx, 8, 8, TextureFormat::Bgra8Unorm).view;
    let uniform = BindGroupLayout { id: 77 };
    let shader = Shader::new(
        &mut ctx,
        ShaderDescriptor {
            src: "program".to_string(),
            textures: vec![a, b],
            uniforms: vec![uniform],
            vertex_layout: QuadInstance::desc(),
            output_format: TextureFormat::Bgra8Unorm,
            blend: BlendState::AlphaBlending,
            depth_stencil: None,
        },
    );
    assert_eq!(shader.pipeline(), RenderPipeline { id: 5 });
    assert_eq!(shader.bind_group(), BindGroup { id: 6 });
    assert_eq!(shader.texture(0), Some(a));
    assert_eq!(shader.texture(1), Some(b));
    assert_eq!(shader.texture(2), None);
    assert_eq!(
        ctx.take_requests(),
        vec![
            Request::CreateShaderModule { module: ShaderModule { id: 2 }, source: "program".to_string() },
            Request::CreateSampler { sampler: Sampler { id: 3 } },
            texture_layout(4, 2),
            Request::CreateRenderPipeline {
                pipeline: RenderPipeline { id: 5 },
                module: ShaderModule { id: 2 },
                layouts: vec![BindGroupLayout { id: 4 }, uniform],
                array_stride: 40,
                attributes: quad_attributes(),
                output_format: TextureFormat::Bgra8Unorm,
                blend: BlendState::AlphaBlending,
                depth_stencil: None,
            },
            texture_group(6, 4, 3, &[a, b]),
        ]
    );
    assert_eq!(ctx.resource_kind(2), Some(ResourceKind::ShaderModule));
    assert_eq!(ctx.resource_kind(3), Some(ResourceKind::Sampler));
    assert_eq!(ctx.resource_kind(4), Some(ResourceKind::BindGroupLayout));
    assert_eq!(ctx.resource_kind(5), Some(ResourceKind::RenderPipeline));
    assert_eq!(ctx.resource_kind(6), Some(ResourceKind::BindGroup));
}

#[test]
fn shader_without_textures_binds_the_sampler_alone() {
    let mut ctx = WgpuContext::new();
    Shader::new(
        &mut ctx,
        ShaderDescriptor {
            src: String::new(),
            textures: vec![],
            uniforms: vec![],
            vertex_layout: ShadowInstance::desc(),
            output_format: TextureFormat::Rgb10a2Unorm,
            blend: BlendState::Additive,
            depth_stencil: None,
        },
    );
    let requests = ctx.take_requests();
    assert_eq!(requests[2], texture_layout(2, 0));
    assert_eq!(requests[4], texture_group(4, 2, 1, &[]));
}

#[test]
fn update_textures_replaces_the_bind_group() {
    let mut ctx = WgpuContext::new();
    let a = Texture::external(&mut ctx, 4, 4, TextureFormat::Bgra8Unorm).view;
    let b = Texture::external(&mut ctx, 8, 8, TextureFormat::Bgra8Unorm).view;
    let mut shader = Shader::new(
        &mut ctx,
        ShaderDescriptor {
            src: String::new(),
            textures: vec![a],
            uniforms: vec![],
            vertex_layout: ShadowInstance::desc(),
            output_format: TextureFormat::Rgb10a2Unorm,
            blend: BlendState::Additive,
            depth_stencil: None,
        },
    );
    ctx.take_requests();
    let old = shader.bind_group();
    shader.update_textures(&mut ctx, vec![b, a]);
    assert_eq!(shader.bind_group(), BindGroup { id: 7 });
    assert_eq!(shader.texture(0), Some(b));
    assert_eq!(shader.texture(1), Some(a));
    assert_eq!(
        ctx.take_requests(),
        vec![Request::DestroyBindGroup { group: old }, texture_group(7, 4, 3, &[b, a])]
    );
}

#[test]
fn ligth_shader_samples_the_normal_target() {
    let mut ctx = WgpuContext::new();
    let pipeline = LigthPipeline::new(&mut ctx, 800, 600);
    ctx.take_requests();
    let shader = LigthShader::new(&mut ctx, &pipeline.textures, "ligth".to_string());
    assert!(shader.is_bound_to(&pipeline.textures));
    assert_eq!(ctx.take_requests(), ligth_stage(3, "ligth", pipeline.textures.normal));
    assert_eq!(ctx.resource_count(), 11);
}

#[test]
fn quad_shader_builds_normal_diffuse_and_color() {
    let mut ctx = WgpuContext::new();
    let pipeline = LigthPipeline::new(&mut ctx, 800, 600);
    let atlas = atlas(&mut ctx);
    ctx.take_requests();
    let shader = QuadShader::new(&mut ctx, &pipeline.textures, Ok(atlas), quad_sources());
    let shader = shader.unwrap();
    assert!(shader.is_bound_to(&pipeline.textures));
    let n = atlas.normal_textures[0].view;
    let d = atlas.diffuse_textures[0].view;
    let l = pipeline.textures.ligth;
    let mut expected = quad_stage(5, "normal", &[n], TextureFormat::Rgb10a2Unorm);
    expected.extend(quad_stage(11, "diffuse", &[l, d, n], TextureFormat::Bgra8Unorm));
    expected.extend(quad_stage(17, "color", &[l, d, n], TextureFormat::Bgra8Unorm));
    assert_eq!(ctx.take_requests(), expected);
    assert_eq!(ctx.resource_count(), 23);
}

#[test]
fn quad_shader_passes_a_failed_atlas_load_on() {
    let mut ctx = WgpuContext::new();
    let pipeline = LigthPipeline::new(&mut ctx, 800, 600);
    ctx.take_requests();
    let failed = QuadShader::new(
        &mut ctx,
        &pipeline.textures,
        Err(Error::new("bad image header")),
        quad_sources(),
    );
    match failed {
        Ok(_) => panic!("built shaders without an atlas"),
        Err(error) => {
            assert_eq!(error.message(), "bad image header => Unable to load texture atlas")
        }
    }
    assert_eq!(ctx.pending(), 0);
    assert_eq!(ctx.resource_count(), 3);
}

#[test]
fn shaders_build_ligth_first() {
    let mut ctx = WgpuContext::new();
    let pipeline = LigthPipeline::new(&mut ctx, 800, 600);
    let atlas = atlas(&mut ctx);
    ctx.take_requests();
    let shaders = Shaders::new(&mut ctx, &pipeline.textures, Ok(atlas), sources()).unwrap();
    assert!(shaders.is_bound_to(&pipeline.textures));
    let n = atlas.normal_textures[0].view;
    let d = atlas.diffuse_textures[0].view;
    let l = pipeline.textures.ligth;
    let mut expected = ligth_stage(5, "ligth", pipeline.textures.normal);
    expected.extend(quad_stage(13, "normal", &[n], TextureFormat::Rgb10a2Unorm));
    expected.extend(quad_stage(19, "diffuse", &[l, d, n], TextureFormat::Bgra8Unorm));
    expected.extend(quad_stage(25, "color", &[l, d, n], TextureFormat::Bgra8Unorm));
    assert_eq!(ctx.take_requests(), expected);
}

#[test]
fn shaders_fail_without_atlas_after_the_ligth_shader() {
    let mut ctx = WgpuContext::new();
    let pipeline = LigthPipeline::new(&mut ctx, 800, 600);
    ctx.take_requests();
    let failed = Shaders::new(&mut ctx, &pipeline.textures, Err(Error::new("no file")), sources());
    match failed {
        Ok(_) => panic!("built shaders without an atlas"),
        Err(error) => assert_eq!(error.message(), "no file => Unable to load texture atlas"),
    }
    assert_eq!(ctx.take_requests(), ligth_stage(3, "ligth", pipeline.textures.normal));
}

#[test]
fn stale_bindings_are_detected_until_the_shaders_are_told() {
    let mut ctx = WgpuContext::new();
    let mut pipeline = LigthPipeline::new(&mut ctx, 800, 600);
    let atlas = atlas(&mut ctx);
    let mut shaders = Shaders::new(&mut ctx, &pipeline.textures, Ok(atlas), sources()).unwrap();
    assert!(shaders.is_bound_to(&pipeline.textures));

    pipeline.resize(&mut ctx, 1920, 1080);
    assert_eq!(pipeline.textures.normal.width, 1920);
    assert_eq!(pipeline.textures.ligth.height, 1080);
    assert_eq!(pipeline.textures.ligth_depth.width, 1920);
    assert!(!shaders.is_bound_to(&pipeline.textures));
    assert!(!shaders.ligth.is_bound_to(&pipeline.textures));
    assert!(!shaders.quad.is_bound_to(&pipeline.textures));

    ctx.take_requests();
    shaders.resize(&mut ctx, &pipeline.textures);
    assert!(shaders.is_bound_to(&pipeline.textures));

    let n = atlas.normal_textures[0].view;
    let d = atlas.diffuse_textures[0].view;
    let l = pipeline.textures.ligth;
    let first = 34;
    assert_eq!(
        ctx.take_requests(),
        vec![
            Request::DestroyBindGroup { group: BindGroup { id: 12 } },
            texture_group(first, 10, 9, &[pipeline.textures.normal]),
            Request::DestroyBindGroup { group: BindGroup { id: 24 } },
            texture_group(first + 1, 22, 21, &[l, d, n]),
            Request::DestroyBindGroup { group: BindGroup { id: 30 } },
            texture_group(first + 2, 28, 27, &[l, d, n]),
        ]
    );
}

#[test]
fn shaders_bind_to_their_passes() {
    let mut ctx = WgpuContext::new();
    let pipeline = LigthPipeline::new(&mut ctx, 800, 600);
    let atlas = atlas(&mut ctx);
    let shaders = Shaders::new(&mut ctx, &pipeline.textures, Ok(atlas), sources()).unwrap();
    let out = TextureView { id: 500, width: 800, height: 600, format: TextureFormat::Bgra8Unorm };
    let mut frame = pipeline.start_frame(&out);
    let pass = frame.create_render_pass();
    shaders.ligth.bind(pass);
    shaders.quad.bind_ligth(pass);
    shaders.quad.bind(pass);
    let set = |pipeline: usize, group: usize| {
        vec![
            Command::SetPipeline { pipeline: RenderPipeline { id: pipeline } },
            Command::SetBindGroup { index: 0, group: BindGroup { id: group } },
        ]
    };
    let recorded = |pass: &ligth_engine::wgpu_components::RenderPass| {
        (0..pass.len()).map(|i| pass.command(i)).collect::<Vec<_>>()
    };
    assert_eq!(recorded(&pass.ligth), set(11, 12));
    assert_eq!(recorded(&pass.normal), set(17, 18));
    let mut diffuse = set(23, 24);
    diffuse.extend(set(29, 30));
    assert_eq!(recorded(&pass.diffuse), diffuse);
}
