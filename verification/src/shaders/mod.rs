pub mod ligth;
pub mod quad;

pub use ligth::{LigthShader, LigthUniform, ShadowInstance};
pub use quad::{QuadInstance, QuadShader, QuadShaderSources};

use crate::error::ErrResult;
use crate::ligth_pipeline::{LigthRenderPassView, LigthTextures};
use crate::texture_atlas::TextureAtlas;
use crate::wgpu_components::{
    RequestView, ResourceKind, ShaderModel, VertexAttribute, VertexFormat, WgpuContext,
};
use vstd::prelude::*;

verus! {

/// Size in bytes of one attribute of the given format.
pub open spec fn format_size(format: VertexFormat) -> nat {
    match format {
        VertexFormat::Unorm8x4 => 4,
        VertexFormat::Float32 => 4,
        VertexFormat::Float32x2 => 8,
    }
}

/// The attributes lie back to back from offset 0 to `stride`, and
/// attribute `i` goes to shader location `i`.
pub open spec fn packed(attributes: Seq<VertexAttribute>, stride: u64) -> bool {
    &&& attributes.len() > 0
    &&& attributes[0].offset == 0
    &&& forall|i: int|
        0 <= i < attributes.len() ==> (#[trigger] attributes[i]).shader_location == i
    &&& forall|i: int, j: int|
        0 <= i && j == i + 1 && j < attributes.len() ==> (#[trigger] attributes[i]).offset
            + format_size(attributes[i].format) == (#[trigger] attributes[j]).offset
    &&& attributes.last().offset + format_size(attributes.last().format) == stride
}

/// The program texts of the lighting and quad shaders.
pub struct ShaderSources {
    pub ligth: String,
    pub quad: QuadShaderSources,
}

/// All shaders of the renderer.
pub struct Shaders {
    pub quad: QuadShader,
    pub ligth: LigthShader,
}

/// The mathematical state of [`Shaders`].
pub struct ShadersModel {
    /// The shader of the lighting pass.
    pub ligth: ShaderModel,
    /// The quad shader of the normal pass.
    pub normal: ShaderModel,
    /// The lit quad shader of the diffuse pass.
    pub diffuse: ShaderModel,
    /// The plain color quad shader of the diffuse pass.
    pub color: ShaderModel,
}

impl Shaders {
    pub open spec fn model(&self) -> ShadersModel {
        ShadersModel {
            ligth: self.ligth.model(),
            normal: self.quad.normal(),
            diffuse: self.quad.diffuse(),
            color: self.quad.color(),
        }
    }

    /// Every shader samples the render targets that the passes of `pass`
    /// draw into.
    pub open spec fn bound_to_pass(&self, pass: LigthRenderPassView) -> bool {
        &&& self.quad.wf()
        &&& self.ligth.wf()
        &&& self.ligth.sampled() == pass.normal_target()
        &&& self.quad.sampled() == pass.lit_target()
    }

    /// Every shader samples the render targets of `textures`, and no other.
    pub open spec fn bound_to(&self, textures: LigthTextures) -> bool {
        &&& self.quad.wf()
        &&& self.ligth.wf()
        &&& self.ligth.sampled() == textures.normal
        &&& self.quad.sampled() == textures.ligth
    }

    /// True if every shader samples the render targets of `textures`.
    pub fn is_bound_to(&self, textures: &LigthTextures) -> (bound: bool)
        ensures
            bound == self.bound_to(*textures),
    {
        self.ligth.is_bound_to(textures) && self.quad.is_bound_to(textures)
    }

    /// The requests that build all shaders when the next free handle is `first`.
    pub open spec fn creation_requests(
        first: nat,
        textures: LigthTextures,
        atlas: TextureAtlas,
        ligth: Seq<char>,
        normal: Seq<char>,
        diffuse: Seq<char>,
        color: Seq<char>,
    ) -> Seq<RequestView> {
        LigthShader::creation_requests(first, textures, ligth) + QuadShader::creation_requests(
            first + 8,
            textures,
            atlas,
            normal,
            diffuse,
            color,
        )
    }

    /// Builds the lighting shader, then the quad shaders. Fails, having
    /// built the lighting shader only, if the atlas could not be loaded.
    pub fn new(
        ctx: &mut WgpuContext,
        textures: &LigthTextures,
        atlas: ErrResult<TextureAtlas>,
        sources: ShaderSources,
    ) -> (shaders: ErrResult<Self>)
        ensures
            atlas is Ok <==> shaders is Ok,
            atlas matches Err(cause) ==> (shaders matches Err(error) && error@ == cause@
                + crate::error::separator() + QuadShader::load_context()),
            atlas matches Ok(loaded) ==> (shaders matches Ok(built) && {
                &&& built.bound_to(*textures)
                &&& built.quad.atlas() == loaded
                &&& built.ligth.model() == LigthShader::built(old(ctx).resources().len(), *textures)
                &&& built.quad.built_at(old(ctx).resources().len() + 8)
                &&& final(ctx).resources() == old(ctx).resources() + LigthShader::resources()
                    + QuadShader::resources()
                &&& final(ctx).requests() == old(ctx).requests() + Self::creation_requests(
                    old(ctx).resources().len(),
                    *textures,
                    loaded,
                    sources.ligth@,
                    sources.quad.normal@,
                    sources.quad.diffuse@,
                    sources.quad.color@,
                )
            }),
            atlas is Err ==> {
                &&& final(ctx).resources() == old(ctx).resources() + LigthShader::resources()
                &&& final(ctx).requests() == old(ctx).requests() + LigthShader::creation_requests(
                    old(ctx).resources().len(),
                    *textures,
                    sources.ligth@,
                )
            },
    {
        let ShaderSources { ligth: ligth_src, quad: quad_src } = sources;
        let ligth = LigthShader::new(ctx, textures, ligth_src);
        assert(ctx.resources().len() == old(ctx).resources().len() + 8);
        match QuadShader::new(ctx, textures, atlas, quad_src) {
            Ok(quad) => {
                assert(ctx.requests() =~= old(ctx).requests() + Self::creation_requests(
                    old(ctx).resources().len(),
                    *textures,
                    quad.atlas(),
                    sources.ligth@,
                    sources.quad.normal@,
                    sources.quad.diffuse@,
                    sources.quad.color@,
                ));
                Ok(Shaders { ligth, quad })
            },
            Err(error) => Err(error),
        }
    }

    /// Binds every shader to the render targets of `textures`. To be
    /// called whenever the targets were created anew.
    pub fn resize(&mut self, ctx: &mut WgpuContext, textures: &LigthTextures)
        requires
            old(self).quad.wf(),
            old(self).ligth.wf(),
        ensures
            final(self).bound_to(*textures),
            final(self).quad.atlas() == old(self).quad.atlas(),
            final(self).ligth.model() == old(self).ligth.model().rebound(
                final(self).ligth.model().bind_group,
                seq![textures.normal],
            ),
            final(ctx).resources() == old(ctx).resources() + seq![
                ResourceKind::BindGroup,
                ResourceKind::BindGroup,
                ResourceKind::BindGroup,
            ],
            final(ctx).requests() == old(ctx).requests() + old(self).ligth.resize_requests(
                old(ctx).resources().len(),
                *textures,
            ) + old(self).quad.resize_requests(old(ctx).resources().len() + 1, *textures),
    {
        self.ligth.resize(ctx, textures);
        self.quad.resize(ctx, textures);
        assert(ctx.resources() =~= old(ctx).resources() + seq![
            ResourceKind::BindGroup,
            ResourceKind::BindGroup,
            ResourceKind::BindGroup,
        ]);
    }
}

} // verus!
