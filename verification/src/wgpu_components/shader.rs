use super::render_pass::Command;
use super::{
    BindGroup, BindGroupEntry, BindGroupLayout, BindGroupLayoutEntry, BindingResource, BindingType,
    BlendState, DepthStencilState, RecordedPassView, RenderPass, RenderPipeline, Request,
    RequestView, ResourceKind, Sampler, ShaderModule, ShaderStages, TextureFormat, TextureView,
    VertexAttribute, WgpuContext,
};
use vstd::prelude::*;

verus! {

/// How the records of an instance buffer are handed to the vertex stage:
/// one record per instance, `array_stride` bytes apart.
#[derive(Clone, Debug, PartialEq, Eq)]
pub struct VertexBufferLayout {
    pub array_stride: u64,
    pub attributes: Vec<VertexAttribute>,
}

/// Everything a [`Shader`] is built from.
pub struct ShaderDescriptor {
    /// The shader program text.
    pub src: String,
    /// The textures the fragment stage samples, in binding order.
    pub textures: Vec<TextureView>,
    /// Layouts of the uniform bind groups, in slot order after slot 0.
    pub uniforms: Vec<BindGroupLayout>,
    pub vertex_layout: VertexBufferLayout,
    pub output_format: TextureFormat,
    pub blend: BlendState,
    pub depth_stencil: Option<DepthStencilState>,
}

/// The mathematical content of a [`ShaderDescriptor`].
pub struct ShaderDescriptorView {
    pub src: Seq<char>,
    pub textures: Seq<TextureView>,
    pub uniforms: Seq<BindGroupLayout>,
    pub array_stride: u64,
    pub attributes: Seq<VertexAttribute>,
    pub output_format: TextureFormat,
    pub blend: BlendState,
    pub depth_stencil: Option<DepthStencilState>,
}

impl View for ShaderDescriptor {
    type V = ShaderDescriptorView;

    open spec fn view(&self) -> ShaderDescriptorView {
        ShaderDescriptorView {
            src: self.src@,
            textures: self.textures@,
            uniforms: self.uniforms@,
            array_stride: self.vertex_layout.array_stride,
            attributes: self.vertex_layout.attributes@,
            output_format: self.output_format,
            blend: self.blend,
            depth_stencil: self.depth_stencil,
        }
    }
}

/// The kinds of the handles a shader takes, in the order they are handed out.
pub open spec fn shader_resources() -> Seq<ResourceKind> {
    seq![
        ResourceKind::ShaderModule,
        ResourceKind::Sampler,
        ResourceKind::BindGroupLayout,
        ResourceKind::RenderPipeline,
        ResourceKind::BindGroup,
    ]
}

/// Layout of the texture bind group: the sampler at binding 0, then one
/// texture per binding `1..=textures`, all read by the fragment stage.
pub open spec fn texture_layout_entries(textures: nat) -> Seq<BindGroupLayoutEntry> {
    Seq::new(
        textures + 1,
        |i: int|
            BindGroupLayoutEntry {
                binding: i as u32,
                visibility: ShaderStages::Fragment,
                ty: if i == 0 {
                    BindingType::FilteringSampler
                } else {
                    BindingType::FloatTexture2d
                },
            },
    )
}

/// Content of the texture bind group: the sampler at binding 0, then
/// `textures[i]` at binding `i + 1`.
pub open spec fn texture_group_entries(sampler: Sampler, textures: Seq<TextureView>) -> Seq<
    BindGroupEntry,
> {
    Seq::new(
        textures.len() + 1,
        |i: int|
            BindGroupEntry {
                binding: i as u32,
                resource: if i == 0 {
                    BindingResource::Sampler(sampler)
                } else {
                    BindingResource::TextureView(textures[i - 1])
                },
            },
    )
}

/// The mathematical state of a [`Shader`].
pub struct ShaderModel {
    pub pipeline: RenderPipeline,
    pub bind_group: BindGroup,
    pub bind_group_layout: BindGroupLayout,
    pub sampler: Sampler,
    /// The textures the current bind group samples, in binding order.
    pub textures: Seq<TextureView>,
}

impl ShaderModel {
    /// The request that builds the texture bind group.
    pub open spec fn bind_group_request(self) -> RequestView {
        RequestView::CreateBindGroup {
            group: self.bind_group,
            layout: self.bind_group_layout,
            entries: texture_group_entries(self.sampler, self.textures),
        }
    }

    /// The shader built from textures `textures` when the next free handle
    /// is `first`.
    pub open spec fn built(first: nat, textures: Seq<TextureView>) -> ShaderModel {
        ShaderModel {
            sampler: Sampler { id: (first + 1) as usize },
            bind_group_layout: BindGroupLayout { id: (first + 2) as usize },
            pipeline: RenderPipeline { id: (first + 3) as usize },
            bind_group: BindGroup { id: (first + 4) as usize },
            textures,
        }
    }

    /// The requests that build the shader from `desc`; `module` is the
    /// handle of its program.
    pub open spec fn creation_requests(self, module: ShaderModule, desc: ShaderDescriptorView) -> Seq<
        RequestView,
    > {
        seq![
            RequestView::CreateShaderModule { module, source: desc.src },
            RequestView::CreateSampler { sampler: self.sampler },
            RequestView::CreateBindGroupLayout {
                layout: self.bind_group_layout,
                entries: texture_layout_entries(desc.textures.len()),
            },
            RequestView::CreateRenderPipeline {
                pipeline: self.pipeline,
                module,
                layouts: seq![self.bind_group_layout] + desc.uniforms,
                array_stride: desc.array_stride,
                attributes: desc.attributes,
                output_format: desc.output_format,
                blend: desc.blend,
                depth_stencil: desc.depth_stencil,
            },
            self.bind_group_request(),
        ]
    }

    /// The requests that build a shader from `desc` when the next free
    /// handle is `first`.
    pub open spec fn requests_at(first: nat, desc: ShaderDescriptorView) -> Seq<RequestView> {
        Self::built(first, desc.textures).creation_requests(
            ShaderModule { id: first as usize },
            desc,
        )
    }

    /// The bind group was built over `textures`, with `group` as handle.
    pub open spec fn rebound(self, group: BindGroup, textures: Seq<TextureView>) -> ShaderModel {
        ShaderModel { bind_group: group, textures, ..self }
    }

    /// The requests that replace the texture bind group.
    pub open spec fn rebind_requests(self, group: BindGroup, textures: Seq<TextureView>) -> Seq<
        RequestView,
    > {
        seq![
            RequestView::DestroyBindGroup { group: self.bind_group },
            self.rebound(group, textures).bind_group_request(),
        ]
    }

    /// The commands that make the shader current on a pass.
    pub open spec fn bind_commands(self) -> Seq<Command> {
        seq![
            Command::SetPipeline { pipeline: self.pipeline },
            Command::SetBindGroup { index: 0, group: self.bind_group },
        ]
    }
}

/// A render pipeline together with the bind group of the textures it samples.
pub struct Shader {
    pipeline: RenderPipeline,
    bind_group: BindGroup,
    bind_group_layout: BindGroupLayout,
    sampler: Sampler,
    textures: Vec<TextureView>,
}

impl Shader {
    pub closed spec fn model(&self) -> ShaderModel {
        ShaderModel {
            pipeline: self.pipeline,
            bind_group: self.bind_group,
            bind_group_layout: self.bind_group_layout,
            sampler: self.sampler,
            textures: self.textures@,
        }
    }

    /// Builds the program, its sampler, the layout and content of the
    /// texture bind group (slot 0) and the pipeline, whose further bind
    /// group slots take the uniforms of `desc` in order.
    pub fn new(ctx: &mut WgpuContext, desc: ShaderDescriptor) -> (shader: Self)
        requires
            desc.textures@.len() < u32::MAX,
        ensures
            shader.model() == ShaderModel::built(old(ctx).resources().len(), desc@.textures),
            final(ctx).resources() == old(ctx).resources() + shader_resources(),
            final(ctx).requests() == old(ctx).requests() + ShaderModel::requests_at(
                old(ctx).resources().len(),
                desc@,
            ),
    {
        let ghost spec_desc = desc@;
        let ShaderDescriptor {
            src,
            textures,
            uniforms,
            vertex_layout,
            output_format,
            blend,
            depth_stencil,
        } = desc;
        let module = ShaderModule { id: ctx.create(ResourceKind::ShaderModule) };
        ctx.request(Request::CreateShaderModule { module, source: src });

        let sampler = Sampler { id: ctx.create(ResourceKind::Sampler) };
        ctx.request(Request::CreateSampler { sampler });

        let mut entries: Vec<BindGroupLayoutEntry> = Vec::new();
        entries.push(
            BindGroupLayoutEntry {
                binding: 0,
                visibility: ShaderStages::Fragment,
                ty: BindingType::FilteringSampler,
            },
        );
        let mut i: usize = 0;
        while i < textures.len()
            invariant
                i <= textures.len() < u32::MAX,
                entries@ =~= texture_layout_entries(i as nat),
            decreases textures.len() - i,
        {
            entries.push(
                BindGroupLayoutEntry {
                    binding: (i + 1) as u32,
                    visibility: ShaderStages::Fragment,
                    ty: BindingType::FloatTexture2d,
                },
            );
            i += 1;
        }
        let bind_group_layout = BindGroupLayout { id: ctx.create(ResourceKind::BindGroupLayout) };
        ctx.request(Request::CreateBindGroupLayout { layout: bind_group_layout, entries });

        let mut layouts: Vec<BindGroupLayout> = Vec::new();
        layouts.push(bind_group_layout);
        let mut j: usize = 0;
        while j < uniforms.len()
            invariant
                j <= uniforms.len(),
                layouts@ =~= seq![bind_group_layout] + uniforms@.subrange(0, j as int),
            decreases uniforms.len() - j,
        {
            layouts.push(uniforms[j]);
            j += 1;
        }
        assert(uniforms@.subrange(0, j as int) =~= uniforms@);
        let pipeline = RenderPipeline { id: ctx.create(ResourceKind::RenderPipeline) };
        let VertexBufferLayout { array_stride, attributes } = vertex_layout;
        ctx.request(
            Request::CreateRenderPipeline {
                pipeline,
                module,
                layouts,
                array_stride,
                attributes,
                output_format,
                blend,
                depth_stencil,
            },
        );

        let bind_group = Self::new_bind_group(ctx, bind_group_layout, sampler, &textures);
        let shader = Shader { pipeline, bind_group, bind_group_layout, sampler, textures };
        assert(ctx.requests() =~= old(ctx).requests() + shader.model().creation_requests(
            module,
            spec_desc,
        ));
        assert(ctx.resources() =~= old(ctx).resources() + shader_resources());
        shader
    }

    fn new_bind_group(
        ctx: &mut WgpuContext,
        layout: BindGroupLayout,
        sampler: Sampler,
        textures: &Vec<TextureView>,
    ) -> (group: BindGroup)
        requires
            textures@.len() < u32::MAX,
        ensures
            group == (BindGroup { id: old(ctx).resources().len() as usize }),
            final(ctx).resources() == old(ctx).resources().push(ResourceKind::BindGroup),
            final(ctx).requests() == old(ctx).requests().push(
                RequestView::CreateBindGroup {
                    group,
                    layout,
                    entries: texture_group_entries(sampler, textures@),
                },
            ),
    {
        let mut entries: Vec<BindGroupEntry> = Vec::new();
        entries.push(BindGroupEntry { binding: 0, resource: BindingResource::Sampler(sampler) });
        let mut binding: u32 = 1;
        let mut i: usize = 0;
        while i < textures.len()
            invariant
                i <= textures.len() < u32::MAX,
                binding == i + 1,
                entries@ =~= texture_group_entries(sampler, textures@.subrange(0, i as int)),
            decreases textures.len() - i,
        {
            entries.push(
                BindGroupEntry { binding, resource: BindingResource::TextureView(textures[i]) },
            );
            binding += 1;
            i += 1;
        }
        assert(textures@.subrange(0, i as int) =~= textures@);
        let group = BindGroup { id: ctx.create(ResourceKind::BindGroup) };
        ctx.request(Request::CreateBindGroup { group, layout, entries });
        group
    }

    /// Replaces the texture bind group by one over `textures`; the old
    /// group is released.
    pub fn update_textures(&mut self, ctx: &mut WgpuContext, textures: Vec<TextureView>)
        requires
            textures@.len() < u32::MAX,
        ensures
            final(self).model() == old(self).model().rebound(
                BindGroup { id: old(ctx).resources().len() as usize },
                textures@,
            ),
            final(ctx).resources() == old(ctx).resources().push(ResourceKind::BindGroup),
            final(ctx).requests() == old(ctx).requests() + old(self).model().rebind_requests(
                BindGroup { id: old(ctx).resources().len() as usize },
                textures@,
            ),
    {
        ctx.request(Request::DestroyBindGroup { group: self.bind_group });
        self.bind_group =
        Self::new_bind_group(ctx, self.bind_group_layout, self.sampler, &textures);
        self.textures = textures;
        assert(ctx.requests() =~= old(ctx).requests() + old(self).model().rebind_requests(
            self.bind_group,
            textures@,
        ));
    }

    /// The texture sampled at binding `index + 1`, if there is one.
    pub fn texture(&self, index: usize) -> (view: Option<TextureView>)
        ensures
            view == if index < self.model().textures.len() {
                Some(self.model().textures[index as int])
            } else {
                None
            },
    {
        if index < self.textures.len() {
            Some(self.textures[index])
        } else {
            None
        }
    }

    pub fn pipeline(&self) -> (pipeline: RenderPipeline)
        ensures
            pipeline == self.model().pipeline,
    {
        self.pipeline
    }

    pub fn bind_group(&self) -> (group: BindGroup)
        ensures
            group == self.model().bind_group,
    {
        self.bind_group
    }

    /// Makes the shader current on `pass`: its pipeline, and its texture
    /// bind group at slot 0.
    pub fn bind(&self, pass: &mut RenderPass)
        ensures
            final(pass)@ == (RecordedPassView {
                commands: old(pass)@.commands + self.model().bind_commands(),
                ..old(pass)@
            }),
    {
        pass.set_pipeline(self.pipeline);
        pass.set_bind_group(0, self.bind_group);
        assert(pass@.commands =~= old(pass)@.commands + self.model().bind_commands());
    }
}

} // verus!
