use super::packed;
use crate::ligth_pipeline::{LigthRenderPass, LigthTextures};
use crate::math::Vec2;
use crate::wgpu_components::shader::shader_resources;
use crate::wgpu_components::uniform::uniform_layout_entries;
use crate::wgpu_components::{
    BindGroup, BindGroupLayout, BlendState, DepthStencilState, Record, RequestView, ResourceKind,
    Shader, ShaderDescriptor, ShaderDescriptorView, ShaderModel, ShaderStages, TextureFormat,
    TextureView, Uniform, VertexAttribute, VertexBufferLayout, VertexFormat, WgpuContext,
};
use vstd::prelude::*;

verus! {

/// A line segment that casts a shadow, from `a` to `b`.
#[derive(Clone, Copy, Debug, PartialEq, Eq, Structural)]
pub struct ShadowInstance {
    pub a: Vec2,
    pub b: Vec2,
}

impl Default for ShadowInstance {
    /// The segment from the origin to the origin.
    fn default() -> (shadow: Self)
        ensures
            shadow == ShadowInstance::sentinel(),
    {
        ShadowInstance { a: Vec2 { x: 0, y: 0 }, b: Vec2 { x: 0, y: 0 } }
    }
}

impl ShadowInstance {
    /// The segment that casts no shadow: both endpoints at the origin.
    pub open spec fn sentinel() -> ShadowInstance {
        ShadowInstance { a: Vec2 { x: 0, y: 0 }, b: Vec2 { x: 0, y: 0 } }
    }

    /// Both endpoints are equal, so the segment has no extent.
    pub open spec fn is_degenerate(self) -> bool {
        self.a == self.b
    }

    /// Endpoint `a` at shader location 0, endpoint `b` at location 1.
    pub open spec fn attributes() -> Seq<VertexAttribute> {
        seq![
            VertexAttribute { format: VertexFormat::Float32x2, offset: 0, shader_location: 0 },
            VertexAttribute { format: VertexFormat::Float32x2, offset: 8, shader_location: 1 },
        ]
    }

    /// How a buffer of segments is read by the vertex stage.
    pub fn desc() -> (layout: VertexBufferLayout)
        ensures
            layout.array_stride == 16,
            layout.array_stride == 4 * Self::word_count(),
            layout.attributes@ == Self::attributes(),
            packed(layout.attributes@, layout.array_stride),
    {
        let mut attributes: Vec<VertexAttribute> = Vec::new();
        attributes.push(
            VertexAttribute { format: VertexFormat::Float32x2, offset: 0, shader_location: 0 },
        );
        attributes.push(
            VertexAttribute { format: VertexFormat::Float32x2, offset: 8, shader_location: 1 },
        );
        assert(attributes@ =~= Self::attributes());
        VertexBufferLayout { array_stride: 16, attributes }
    }
}

impl Record for ShadowInstance {
    open spec fn word_count() -> nat {
        4
    }

    open spec fn words(&self) -> Seq<u32> {
        seq![self.a.x, self.a.y, self.b.x, self.b.y]
    }

    proof fn lemma_layout(&self) {
    }

    fn word_len() -> (n: usize) {
        4
    }

    fn encode(&self, out: &mut Vec<u32>) {
        out.push(self.a.x);
        out.push(self.a.y);
        out.push(self.b.x);
        out.push(self.b.y);
        assert(out@ =~= old(out)@ + self.words());
    }
}

/// A point light as the shaders see it.
#[derive(Clone, Copy, Debug, PartialEq, Eq, Structural)]
pub struct LigthUniform {
    pub pos: Vec2,
    /// Depth key of the light, as the bit pattern of a single-precision number.
    pub z_index: u32,
    /// Three 10-bit channels, see [`LigthUniform::color`].
    pub color: u32,
}

impl LigthUniform {
    /// Channel `shift / 10` of a packed color.
    pub open spec fn channel(color: u32, shift: u32) -> u32 {
        (color >> shift) & 0x3FF
    }

    /// Packs the low 10 bits of each channel into one word: red in bits
    /// 20 to 29, green in bits 10 to 19, blue in bits 0 to 9. Bits 30 and
    /// 31 are zero.
    pub fn color(r: u16, g: u16, b: u16) -> (color: u32)
        ensures
            Self::channel(color, 20) == r & 0x3FF,
            Self::channel(color, 10) == g & 0x3FF,
            Self::channel(color, 0) == b & 0x3FF,
            color >> 30 == 0,
            color == (((r & 0x3FF) as u32) << 20) | (((g & 0x3FF) as u32) << 10) | ((b
                & 0x3FF) as u32),
    {
        let red = (r & 0x3FF) as u32;
        let green = (g & 0x3FF) as u32;
        let blue = (b & 0x3FF) as u32;
        let color = (red << 20) | (green << 10) | blue;
        assert(red <= 0x3FF && green <= 0x3FF && blue <= 0x3FF) by (bit_vector)
            requires
                red == (r & 0x3FF) as u32,
                green == (g & 0x3FF) as u32,
                blue == (b & 0x3FF) as u32,
        ;
        assert(((color >> 20) & 0x3FF) == red && ((color >> 10) & 0x3FF) == green && ((color >> 0)
            & 0x3FF) == blue && color >> 30 == 0) by (bit_vector)
            requires
                red <= 0x3FF,
                green <= 0x3FF,
                blue <= 0x3FF,
                color == (red << 20) | (green << 10) | blue,
        ;
        color
    }
}

impl Record for LigthUniform {
    open spec fn word_count() -> nat {
        4
    }

    open spec fn words(&self) -> Seq<u32> {
        seq![self.pos.x, self.pos.y, self.z_index, self.color]
    }

    proof fn lemma_layout(&self) {
    }

    fn word_len() -> (n: usize) {
        4
    }

    fn encode(&self, out: &mut Vec<u32>) {
        out.push(self.pos.x);
        out.push(self.pos.y);
        out.push(self.z_index);
        out.push(self.color);
        assert(out@ =~= old(out)@ + self.words());
    }
}

/// The shader of the lighting pass: it reads the normal target, and adds
/// the light of one source to the lit target per draw.
pub struct LigthShader {
    shader: Shader,
}

impl LigthShader {
    pub closed spec fn model(&self) -> ShaderModel {
        self.shader.model()
    }

    /// The shader samples exactly one texture.
    pub open spec fn wf(&self) -> bool {
        self.model().textures.len() == 1
    }

    /// The render target that the shader samples.
    pub open spec fn sampled(&self) -> TextureView {
        self.model().textures[0]
    }

    /// The kinds of the handles of the three uniform layouts.
    pub open spec fn layout_resources() -> Seq<ResourceKind> {
        seq![
            ResourceKind::BindGroupLayout,
            ResourceKind::BindGroupLayout,
            ResourceKind::BindGroupLayout,
        ]
    }

    /// Three uniform layouts, then the handles of the shader itself.
    pub open spec fn resources() -> Seq<ResourceKind> {
        Self::layout_resources() + shader_resources()
    }

    /// The layouts of the three uniform bind groups when the next free
    /// handle is `first`.
    pub open spec fn layouts(first: nat) -> Seq<BindGroupLayout> {
        seq![
            BindGroupLayout { id: first as usize },
            BindGroupLayout { id: (first + 1) as usize },
            BindGroupLayout { id: (first + 2) as usize },
        ]
    }

    /// What the shader is built from when the next free handle is `first`:
    /// it samples the normal target, takes the camera and the sentinel
    /// index in the vertex stage and the light in both stages, reads
    /// shadow segments, adds colors up and keeps the nearest depth.
    pub open spec fn descriptor(first: nat, textures: LigthTextures, src: Seq<char>) -> ShaderDescriptorView {
        ShaderDescriptorView {
            src,
            textures: seq![textures.normal],
            uniforms: Self::layouts(first),
            array_stride: 16,
            attributes: ShadowInstance::attributes(),
            output_format: TextureFormat::Rgb10a2Unorm,
            blend: BlendState::Additive,
            depth_stencil: Some(DepthStencilState::LessDepth32Float),
        }
    }

    /// The shader as it is built when the next free handle is `first`.
    pub open spec fn built(first: nat, textures: LigthTextures) -> ShaderModel {
        ShaderModel::built(first + 3, seq![textures.normal])
    }

    /// The requests that create the layouts of the three uniform bind
    /// groups when the next free handle is `first`.
    pub open spec fn layout_requests(first: nat) -> Seq<RequestView> {
        seq![
            RequestView::CreateBindGroupLayout {
                layout: BindGroupLayout { id: first as usize },
                entries: uniform_layout_entries(ShaderStages::Vertex),
            },
            RequestView::CreateBindGroupLayout {
                layout: BindGroupLayout { id: (first + 1) as usize },
                entries: uniform_layout_entries(ShaderStages::Vertex),
            },
            RequestView::CreateBindGroupLayout {
                layout: BindGroupLayout { id: (first + 2) as usize },
                entries: uniform_layout_entries(ShaderStages::VertexFragment),
            },
        ]
    }

    pub open spec fn creation_requests(first: nat, textures: LigthTextures, src: Seq<char>) -> Seq<
        RequestView,
    > {
        Self::layout_requests(first) + ShaderModel::requests_at(
            first + 3,
            Self::descriptor(first, textures, src),
        )
    }

    /// The requests that bind the shader to the targets of `textures`
    /// when the next free handle is `first`.
    pub open spec fn resize_requests(&self, first: nat, textures: LigthTextures) -> Seq<RequestView> {
        self.model().rebind_requests(BindGroup { id: first as usize }, seq![textures.normal])
    }

    /// Creates the layouts of the three uniform bind groups: camera and
    /// sentinel index for the vertex stage, the light for both stages.
    fn uniform_layouts(ctx: &mut WgpuContext) -> (uniforms: Vec<BindGroupLayout>)
        ensures
            uniforms@ == Self::layouts(old(ctx).resources().len()),
            final(ctx).resources() == old(ctx).resources() + Self::layout_resources(),
            final(ctx).requests() == old(ctx).requests() + Self::layout_requests(
                old(ctx).resources().len(),
            ),
    {
        let mut uniforms: Vec<BindGroupLayout> = Vec::new();
        uniforms.push(Uniform::new_layout(ctx, ShaderStages::Vertex));
        uniforms.push(Uniform::new_layout(ctx, ShaderStages::Vertex));
        uniforms.push(Uniform::new_layout(ctx, ShaderStages::VertexFragment));
        assert(uniforms@ =~= Self::layouts(old(ctx).resources().len()));
        assert(ctx.requests() =~= old(ctx).requests() + Self::layout_requests(
            old(ctx).resources().len(),
        ));
        assert(ctx.resources() =~= old(ctx).resources() + Self::layout_resources());
        uniforms
    }

    pub fn new(ctx: &mut WgpuContext, textures: &LigthTextures, src: String) -> (shader: Self)
        ensures
            shader.wf(),
            shader.sampled() == textures.normal,
            shader.model() == Self::built(old(ctx).resources().len(), *textures),
            final(ctx).resources() == old(ctx).resources() + Self::resources(),
            final(ctx).requests() == old(ctx).requests() + Self::creation_requests(
                old(ctx).resources().len(),
                *textures,
                src@,
            ),
    {
        let ghost first = ctx.resources().len();
        let mut sampled: Vec<TextureView> = Vec::new();
        sampled.push(textures.normal);
        let uniforms = Self::uniform_layouts(ctx);
        let desc = ShaderDescriptor {
            src,
            textures: sampled,
            uniforms,
            vertex_layout: ShadowInstance::desc(),
            output_format: TextureFormat::Rgb10a2Unorm,
            blend: BlendState::Additive,
            depth_stencil: Some(DepthStencilState::LessDepth32Float),
        };
        let ghost wanted = Self::descriptor(first, *textures, src@);
        assert(desc@.textures =~= wanted.textures);
        assert(desc@ == wanted);
        assert(ctx.resources().len() == first + 3);
        let ghost middle_requests = ctx.requests();
        let ghost middle_resources = ctx.resources();
        let shader = Shader::new(ctx, desc);
        proof {
            let built = ShaderModel::requests_at(first + 3, wanted);
            let layouts = Self::layout_requests(first);
            assert(ctx.requests() == middle_requests + built);
            assert(old(ctx).requests() + layouts + built =~= old(ctx).requests() + (layouts
                + built));
            assert(old(ctx).resources() + Self::layout_resources() + shader_resources()
                =~= old(ctx).resources() + (Self::layout_resources() + shader_resources()));
        }
        Self { shader }
    }

    /// Binds the shader to the normal target of `textures`.
    pub fn resize(&mut self, ctx: &mut WgpuContext, textures: &LigthTextures)
        ensures
            final(self).wf(),
            final(self).sampled() == textures.normal,
            final(self).model() == old(self).model().rebound(
                BindGroup { id: old(ctx).resources().len() as usize },
                seq![textures.normal],
            ),
            final(ctx).resources() == old(ctx).resources().push(ResourceKind::BindGroup),
            final(ctx).requests() == old(ctx).requests() + old(self).resize_requests(
                old(ctx).resources().len(),
                *textures,
            ),
    {
        let mut sampled: Vec<TextureView> = Vec::new();
        sampled.push(textures.normal);
        assert(sampled@ =~= seq![textures.normal]);
        self.shader.update_textures(ctx, sampled);
    }

    /// True if the shader samples the normal target of `textures`.
    pub fn is_bound_to(&self, textures: &LigthTextures) -> (bound: bool)
        ensures
            bound == (self.wf() && self.sampled() == textures.normal),
    {
        match self.shader.texture(0) {
            Some(view) => view == textures.normal && self.shader.texture(1).is_none(),
            None => false,
        }
    }

    /// Makes the shader current on the lighting pass. The shader has to
    /// sample the normal target that this frame draws into.
    pub fn bind(&self, pass: &mut LigthRenderPass)
        requires
            self.wf(),
            self.sampled() == old(pass)@.normal_target(),
        ensures
            final(pass)@ == old(pass)@.with_ligth(self.model().bind_commands()),
    {
        self.shader.bind(&mut pass.ligth);
    }
}

} // verus!
