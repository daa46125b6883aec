use crate::wgpu_components::{ResourceKind, TextureFormat, TextureView, WgpuContext};
use vstd::prelude::*;

verus! {

/// A texture whose pixels were supplied from outside.
#[derive(Clone, Copy, Debug, PartialEq, Eq, Structural)]
pub struct Texture {
    pub view: TextureView,
}

impl Texture {
    /// Hands out a handle for a texture that the caller fills itself. No
    /// request is issued for it.
    pub fn external(ctx: &mut WgpuContext, width: u32, height: u32, format: TextureFormat) -> (texture:
        Texture)
        ensures
            texture.view == (TextureView {
                id: old(ctx).resources().len() as usize,
                width,
                height,
                format,
            }),
            final(ctx).resources() == old(ctx).resources().push(ResourceKind::Texture),
            final(ctx).requests() == old(ctx).requests(),
    {
        Texture { view: TextureView { id: ctx.create(ResourceKind::Texture), width, height, format } }
    }
}

/// The pre-baked textures that the quads are cut from: colors, and the
/// matching surface normals.
#[derive(Clone, Copy, Debug)]
pub struct TextureAtlas {
    pub diffuse_textures: [Texture; 1],
    pub normal_textures: [Texture; 1],
}

impl TextureAtlas {
    pub fn new(diffuse: Texture, normal: Texture) -> (atlas: TextureAtlas)
        ensures
            atlas.diffuse() == diffuse.view,
            atlas.normal() == normal.view,
    {
        TextureAtlas { diffuse_textures: [diffuse], normal_textures: [normal] }
    }

    /// The view of the color texture.
    pub open spec fn diffuse(self) -> TextureView {
        self.diffuse_textures[0].view
    }

    /// The view of the normal texture.
    pub open spec fn normal(self) -> TextureView {
        self.normal_textures[0].view
    }
}

} // verus!
