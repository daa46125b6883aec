use super::packed;
use crate::error::{Context, ErrResult};
use crate::ligth_pipeline::{LigthRenderPass, LigthTextures};
use crate::math::{Vec2, MINUS_ONE};
use crate::texture_atlas::TextureAtlas;
use crate::wgpu_components::shader::shader_resources;
use crate::wgpu_components::uniform::uniform_layout_entries;
use crate::wgpu_components::{
    BindGroup, BindGroupLayout, BlendState, Record, RequestView, ResourceKind, Shader,
    ShaderDescriptor, ShaderDescriptorView, ShaderModel, ShaderStages, TextureFormat, TextureView,
    Uniform, VertexAttribute, VertexBufferLayout, VertexFormat, WgpuContext,
};
use vstd::prelude::*;

verus! {

/// One textured or plainly colored rectangle.
///
/// Numbers are held as the bit patterns of single-precision numbers.
#[derive(Clone, Copy, Debug, PartialEq, Eq, Structural)]
pub struct QuadInstance {
    /// Red, green, blue and alpha, one byte each.
    pub color: u32,
    pub angle: u32,
    pub pos: Vec2,
    pub size: Vec2,
    pub tex_pos: Vec2,
    pub tex_size: Vec2,
}

impl QuadInstance {
    /// The six fields at shader locations 0 to 5, in the order they are packed.
    pub open spec fn attributes() -> Seq<VertexAttribute> {
        seq![
            VertexAttribute { format: VertexFormat::Unorm8x4, offset: 0, shader_location: 0 },
            VertexAttribute { format: VertexFormat::Float32, offset: 4, shader_location: 1 },
            VertexAttribute { format: VertexFormat::Float32x2, offset: 8, shader_location: 2 },
            VertexAttribute { format: VertexFormat::Float32x2, offset: 16, shader_location: 3 },
            VertexAttribute { format: VertexFormat::Float32x2, offset: 24, shader_location: 4 },
            VertexAttribute { format: VertexFormat::Float32x2, offset: 32, shader_location: 5 },
        ]
    }

    /// How a buffer of quads is read by the vertex stage.
    pub fn desc() -> (layout: VertexBufferLayout)
        ensures
            layout.array_stride == 40,
            layout.array_stride == 4 * Self::word_count(),
            layout.attributes@ == Self::attributes(),
            packed(layout.attributes@, layout.array_stride),
    {
        let mut attributes: Vec<VertexAttribute> = Vec::new();
        attributes.push(
            VertexAttribute { format: VertexFormat::Unorm8x4, offset: 0, shader_location: 0 },
        );
        attributes.push(
            VertexAttribute { format: VertexFormat::Float32, offset: 4, shader_location: 1 },
        );
        attributes.push(
            VertexAttribute { format: VertexFormat::Float32x2, offset: 8, shader_location: 2 },
        );
        attributes.push(
            VertexAttribute { format: VertexFormat::Float32x2, offset: 16, shader_location: 3 },
        );
        attributes.push(
            VertexAttribute { format: VertexFormat::Float32x2, offset: 24, shader_location: 4 },
        );
        attributes.push(
            VertexAttribute { format: VertexFormat::Float32x2, offset: 32, shader_location: 5 },
        );
        assert(attributes@ =~= Self::attributes());
        VertexBufferLayout { array_stride: 40, attributes }
    }

    /// An upright quad cut from the atlas region at `tex_pos` of extent
    /// `tex_size`, without tint.
    pub fn new_tex(pos: Vec2, size: Vec2, tex_pos: Vec2, tex_size: Vec2) -> (quad: Self)
        ensures
            quad == (QuadInstance { color: 0, angle: 0, pos, size, tex_pos, tex_size }),
    {
        Self { pos, size, angle: 0, color: 0, tex_pos, tex_size }
    }

    /// An upright quad of one color. Its texture position `(-1, 0)` tells
    /// the shader that there is no texture.
    pub fn new_color(pos: Vec2, size: Vec2, color: u32) -> (quad: Self)
        ensures
            quad == (QuadInstance {
                color,
                angle: 0,
                pos,
                size,
                tex_pos: Vec2 { x: MINUS_ONE, y: 0 },
                tex_size: Vec2 { x: 0, y: 0 },
            }),
    {
        Self {
            pos,
            size,
            angle: 0,
            color,
            tex_pos: Vec2::from_bits(MINUS_ONE, 0),
            tex_size: Vec2::zero(),
        }
    }
}

impl Record for QuadInstance {
    open spec fn word_count() -> nat {
        10
    }

    open spec fn words(&self) -> Seq<u32> {
        seq![
            self.color,
            self.angle,
            self.pos.x,
            self.pos.y,
            self.size.x,
            self.size.y,
            self.tex_pos.x,
            self.tex_pos.y,
            self.tex_size.x,
            self.tex_size.y,
        ]
    }

    proof fn lemma_layout(&self) {
    }

    fn word_len() -> (n: usize) {
        10
    }

    fn encode(&self, out: &mut Vec<u32>) {
        out.push(self.color);
        out.push(self.angle);
        out.push(self.pos.x);
        out.push(self.pos.y);
        out.push(self.size.x);
        out.push(self.size.y);
        out.push(self.tex_pos.x);
        out.push(self.tex_pos.y);
        out.push(self.tex_size.x);
        out.push(self.tex_size.y);
        assert(out@ =~= old(out)@ + self.words());
    }
}

/// The program texts of the three quad shaders.
pub struct QuadShaderSources {
    pub normal: String,
    pub diffuse: String,
    pub color: String,
}

/// The shaders that draw quads: normals into the normal target, lit
/// colors into the output, and plain colors into the output.
pub struct QuadShader {
    color: Shader,
    diffuse: Shader,
    normal: Shader,
    atlas: TextureAtlas,
}

impl QuadShader {
    pub closed spec fn color(&self) -> ShaderModel {
        self.color.model()
    }

    pub closed spec fn diffuse(&self) -> ShaderModel {
        self.diffuse.model()
    }

    pub closed spec fn normal(&self) -> ShaderModel {
        self.normal.model()
    }

    pub closed spec fn atlas(&self) -> TextureAtlas {
        self.atlas
    }

    /// The textures that the shaders of the output sample: the lit target
    /// of `textures`, then the colors and the normals of the atlas.
    pub open spec fn output_textures(ligth: TextureView, atlas: TextureAtlas) -> Seq<TextureView> {
        seq![ligth, atlas.diffuse(), atlas.normal()]
    }

    /// The diffuse and the color shader sample one and the same lit
    /// target; all shaders sample the atlas.
    pub open spec fn wf(&self) -> bool {
        &&& self.normal().textures == seq![self.atlas().normal()]
        &&& self.diffuse().textures == Self::output_textures(self.sampled(), self.atlas())
        &&& self.color().textures == Self::output_textures(self.sampled(), self.atlas())
    }

    /// The render target that the shaders of the output sample.
    pub open spec fn sampled(&self) -> TextureView {
        self.diffuse().textures[0]
    }

    /// What was added to the message of a failed atlas load.
    pub open spec fn load_context() -> Seq<char> {
        "Unable to load texture atlas"@
    }

    /// One uniform layout and the handles of one shader, three times.
    pub open spec fn resources() -> Seq<ResourceKind> {
        seq![ResourceKind::BindGroupLayout] + shader_resources() + seq![
            ResourceKind::BindGroupLayout,
        ] + shader_resources() + seq![ResourceKind::BindGroupLayout] + shader_resources()
    }

    /// What one quad shader is built from when the next free handle is
    /// `first`: the camera in the vertex stage, quads as instances, alpha
    /// blending, no depth test.
    pub open spec fn descriptor(
        first: nat,
        src: Seq<char>,
        textures: Seq<TextureView>,
        output_format: TextureFormat,
    ) -> ShaderDescriptorView {
        ShaderDescriptorView {
            src,
            textures,
            uniforms: seq![BindGroupLayout { id: first as usize }],
            array_stride: 40,
            attributes: QuadInstance::attributes(),
            output_format,
            blend: BlendState::AlphaBlending,
            depth_stencil: None,
        }
    }

    /// The requests that build one quad shader when the next free handle
    /// is `first`.
    pub open spec fn stage_requests(
        first: nat,
        src: Seq<char>,
        textures: Seq<TextureView>,
        output_format: TextureFormat,
    ) -> Seq<RequestView> {
        seq![
            RequestView::CreateBindGroupLayout {
                layout: BindGroupLayout { id: first as usize },
                entries: uniform_layout_entries(ShaderStages::Vertex),
            },
        ] + ShaderModel::requests_at(
            first + 1,
            Self::descriptor(first, src, textures, output_format),
        )
    }

    /// The requests that build the normal, the diffuse and the color
    /// shader, in this order, when the next free handle is `first`.
    pub open spec fn creation_requests(
        first: nat,
        textures: LigthTextures,
        atlas: TextureAtlas,
        normal: Seq<char>,
        diffuse: Seq<char>,
        color: Seq<char>,
    ) -> Seq<RequestView> {
        Self::stage_requests(first, normal, seq![atlas.normal()], TextureFormat::Rgb10a2Unorm)
            + Self::stage_requests(
            first + 6,
            diffuse,
            Self::output_textures(textures.ligth, atlas),
            TextureFormat::Bgra8Unorm,
        ) + Self::stage_requests(
            first + 12,
            color,
            Self::output_textures(textures.ligth, atlas),
            TextureFormat::Bgra8Unorm,
        )
    }

    /// The shaders are as they are built when the next free handle is `first`.
    pub open spec fn built_at(&self, first: nat) -> bool {
        &&& self.normal() == ShaderModel::built(first + 1, seq![self.atlas().normal()])
        &&& self.diffuse() == ShaderModel::built(
            first + 7,
            Self::output_textures(self.sampled(), self.atlas()),
        )
        &&& self.color() == ShaderModel::built(
            first + 13,
            Self::output_textures(self.sampled(), self.atlas()),
        )
    }

    /// The requests that bind the diffuse and the color shader to the lit
    /// target of `textures` when the next free handle is `first`.
    pub open spec fn resize_requests(&self, first: nat, textures: LigthTextures) -> Seq<RequestView> {
        self.diffuse().rebind_requests(
            BindGroup { id: first as usize },
            Self::output_textures(textures.ligth, self.atlas()),
        ) + self.color().rebind_requests(
            BindGroup { id: (first + 1) as usize },
            Self::output_textures(textures.ligth, self.atlas()),
        )
    }

    fn stage(
        ctx: &mut WgpuContext,
        src: String,
        textures: Vec<TextureView>,
        output_format: TextureFormat,
    ) -> (shader: Shader)
        requires
            textures@.len() < u32::MAX,
        ensures
            shader.model() == ShaderModel::built(old(ctx).resources().len() + 1, textures@),
            final(ctx).resources() == old(ctx).resources() + seq![ResourceKind::BindGroupLayout]
                + shader_resources(),
            final(ctx).requests() == old(ctx).requests() + Self::stage_requests(
                old(ctx).resources().len(),
                src@,
                textures@,
                output_format,
            ),
    {
        let ghost first = ctx.resources().len();
        let mut uniforms: Vec<BindGroupLayout> = Vec::new();
        uniforms.push(Uniform::new_layout(ctx, ShaderStages::Vertex));
        let desc = ShaderDescriptor {
            src,
            textures,
            uniforms,
            vertex_layout: QuadInstance::desc(),
            output_format,
            blend: BlendState::AlphaBlending,
            depth_stencil: None,
        };
        assert(desc@ =~= Self::descriptor(first, src@, textures@, output_format)) by {
            assert(desc@.uniforms =~= seq![BindGroupLayout { id: first as usize }]);
        }
        let shader = Shader::new(ctx, desc);
        assert(ctx.resources() =~= old(ctx).resources() + seq![ResourceKind::BindGroupLayout]
            + shader_resources());
        assert(ctx.requests() =~= old(ctx).requests() + Self::stage_requests(
            first,
            src@,
            textures@,
            output_format,
        ));
        shader
    }

    fn output_views(ligth: TextureView, atlas: &TextureAtlas) -> (views: Vec<TextureView>)
        ensures
            views@ == Self::output_textures(ligth, *atlas),
    {
        let mut views: Vec<TextureView> = Vec::new();
        views.push(ligth);
        views.push(atlas.diffuse_textures[0].view);
        views.push(atlas.normal_textures[0].view);
        assert(views@ =~= Self::output_textures(ligth, *atlas));
        views
    }

    /// Builds the three quad shaders over the atlas, if it was loaded.
    /// A failed load is passed on with its context, and nothing is built.
    pub fn new(
        ctx: &mut WgpuContext,
        ligth_textures: &LigthTextures,
        atlas: ErrResult<TextureAtlas>,
        sources: QuadShaderSources,
    ) -> (shader: ErrResult<Self>)
        ensures
            atlas is Ok <==> shader is Ok,
            atlas matches Err(cause) ==> (shader matches Err(error) && error@ == cause@
                + crate::error::separator() + Self::load_context()),
            atlas is Err ==> final(ctx).resources() == old(ctx).resources() && final(ctx).requests()
                == old(ctx).requests(),
            atlas matches Ok(loaded) ==> (shader matches Ok(built) && {
                &&& built.wf()
                &&& built.atlas() == loaded
                &&& built.sampled() == ligth_textures.ligth
                &&& built.built_at(old(ctx).resources().len())
                &&& final(ctx).resources() == old(ctx).resources() + Self::resources()
                &&& final(ctx).requests() == old(ctx).requests() + Self::creation_requests(
                    old(ctx).resources().len(),
                    *ligth_textures,
                    loaded,
                    sources.normal@,
                    sources.diffuse@,
                    sources.color@,
                )
            }),
    {
        let ghost first = ctx.resources().len();
        let atlas = match atlas.context("Unable to load texture atlas") {
            Ok(atlas) => atlas,
            Err(error) => {
                return Err(error);
            },
        };
        let QuadShaderSources { normal: normal_src, diffuse: diffuse_src, color: color_src } =
            sources;

        let mut normal_views: Vec<TextureView> = Vec::new();
        normal_views.push(atlas.normal_textures[0].view);
        assert(normal_views@ =~= seq![atlas.normal()]);
        let normal = Self::stage(ctx, normal_src, normal_views, TextureFormat::Rgb10a2Unorm);
        assert(ctx.resources().len() == first + 6);

        let diffuse = Self::stage(
            ctx,
            diffuse_src,
            Self::output_views(ligth_textures.ligth, &atlas),
            TextureFormat::Bgra8Unorm,
        );
        assert(ctx.resources().len() == first + 12);

        let color = Self::stage(
            ctx,
            color_src,
            Self::output_views(ligth_textures.ligth, &atlas),
            TextureFormat::Bgra8Unorm,
        );
        assert(ctx.resources() =~= old(ctx).resources() + Self::resources());
        assert(ctx.requests() =~= old(ctx).requests() + Self::creation_requests(
            first,
            *ligth_textures,
            atlas,
            sources.normal@,
            sources.diffuse@,
            sources.color@,
        ));
        Ok(Self { normal, diffuse, color, atlas })
    }

    /// Binds the diffuse and the color shader to the lit target of `textures`.
    pub fn resize(&mut self, ctx: &mut WgpuContext, textures: &LigthTextures)
        requires
            old(self).wf(),
        ensures
            final(self).wf(),
            final(self).sampled() == textures.ligth,
            final(self).atlas() == old(self).atlas(),
            final(self).normal() == old(self).normal(),
            final(self).diffuse() == old(self).diffuse().rebound(
                BindGroup { id: old(ctx).resources().len() as usize },
                Self::output_textures(textures.ligth, old(self).atlas()),
            ),
            final(self).color() == old(self).color().rebound(
                BindGroup { id: (old(ctx).resources().len() + 1) as usize },
                Self::output_textures(textures.ligth, old(self).atlas()),
            ),
            final(ctx).resources() == old(ctx).resources().push(ResourceKind::BindGroup).push(
                ResourceKind::BindGroup,
            ),
            final(ctx).requests() == old(ctx).requests() + old(self).resize_requests(
                old(ctx).resources().len(),
                *textures,
            ),
    {
        self.diffuse.update_textures(ctx, Self::output_views(textures.ligth, &self.atlas));
        self.color.update_textures(ctx, Self::output_views(textures.ligth, &self.atlas));
        assert(ctx.requests() =~= old(ctx).requests() + old(self).resize_requests(
            old(ctx).resources().len(),
            *textures,
        ));
    }

    fn samples(shader: &Shader, views: &Vec<TextureView>) -> (same: bool)
        ensures
            same == (shader.model().textures == views@),
    {
        let mut i: usize = 0;
        while i < views.len()
            invariant
                i <= views@.len(),
                i <= shader.model().textures.len(),
                forall|j: int| 0 <= j < i ==> shader.model().textures[j] == views@[j],
            decreases views@.len() - i,
        {
            match shader.texture(i) {
                Some(view) => {
                    if view != views[i] {
                        return false;
                    }
                },
                None => {
                    return false;
                },
            }
            i += 1;
        }
        let same = shader.texture(i).is_none();
        if same {
            assert(shader.model().textures =~= views@);
        }
        same
    }

    /// True if the shaders are well-formed and those of the output sample
    /// the lit target of `textures`.
    pub fn is_bound_to(&self, textures: &LigthTextures) -> (bound: bool)
        ensures
            bound == (self.wf() && self.sampled() == textures.ligth),
    {
        let mut normal_views: Vec<TextureView> = Vec::new();
        normal_views.push(self.atlas.normal_textures[0].view);
        assert(normal_views@ =~= seq![self.atlas().normal()]);
        let output = Self::output_views(textures.ligth, &self.atlas);
        let bound = Self::samples(&self.normal, &normal_views) && Self::samples(
            &self.diffuse,
            &output,
        ) && Self::samples(&self.color, &output);
        proof {
            if self.wf() && self.sampled() == textures.ligth {
                assert(bound);
            }
            if bound {
                assert(self.diffuse().textures[0] == textures.ligth);
            }
        }
        bound
    }

    /// Makes the lit quad shaders current: normals on the normal pass,
    /// lit colors on the diffuse pass. The diffuse shader has to sample
    /// the lit target that this frame draws into.
    pub fn bind_ligth(&self, pass: &mut LigthRenderPass)
        requires
            self.wf(),
            self.sampled() == old(pass)@.lit_target(),
        ensures
            final(pass)@ == old(pass)@.with_normal(self.normal().bind_commands()).with_diffuse(
                self.diffuse().bind_commands(),
            ),
    {
        self.normal.bind(&mut pass.normal);
        self.diffuse.bind(&mut pass.diffuse);
    }

    /// Makes the plain color shader current on the diffuse pass. It has to
    /// sample the lit target that this frame draws into.
    pub fn bind(&self, pass: &mut LigthRenderPass)
        requires
            self.wf(),
            self.sampled() == old(pass)@.lit_target(),
        ensures
            final(pass)@ == old(pass)@.with_diffuse(self.color().bind_commands()),
    {
        self.color.bind(&mut pass.diffuse);
    }
}

} // verus!
