pub mod record;
pub mod render_pass;
pub mod shader;
pub mod sparse_buffer;
pub mod uniform;
pub mod vec_buffer;

pub use record::Record;
pub use render_pass::{ClearColor, Command, PassDescriptor, RecordedPass, RecordedPassView, RenderPass};
pub use shader::{Shader, ShaderDescriptor, ShaderDescriptorView, ShaderModel, VertexBufferLayout};
pub use sparse_buffer::{Disable, SparseVec, SparseVecModel};
pub use uniform::{CachedUniform, CachedUniformModel, Uniform, UniformModel};
pub use vec_buffer::{Dirty, Edit, Step, VecBuffer, VecBufferModel};

use vstd::prelude::*;

verus! {

/// What a handle handed out by the context names.
#[derive(Clone, Copy, Debug, PartialEq, Eq, Structural)]
pub enum ResourceKind {
    Buffer,
    Texture,
    Sampler,
    BindGroupLayout,
    BindGroup,
    ShaderModule,
    RenderPipeline,
}

/// Which shader stages may read a binding.
#[derive(Clone, Copy, Debug, PartialEq, Eq, Structural)]
pub enum ShaderStages {
    Vertex,
    Fragment,
    VertexFragment,
}

/// What a device buffer may be used for.
#[derive(Clone, Copy, Debug, PartialEq, Eq, Structural)]
pub struct BufferUsages {
    pub vertex: bool,
    pub uniform: bool,
    pub copy_dst: bool,
}

impl BufferUsages {
    pub fn vertex() -> (usage: BufferUsages)
        ensures
            usage == (BufferUsages { vertex: true, uniform: false, copy_dst: false }),
    {
        BufferUsages { vertex: true, uniform: false, copy_dst: false }
    }

    pub fn uniform() -> (usage: BufferUsages)
        ensures
            usage == (BufferUsages { vertex: false, uniform: true, copy_dst: false }),
    {
        BufferUsages { vertex: false, uniform: true, copy_dst: false }
    }

    /// The same usages, and the buffer may also be written through the queue.
    pub fn with_copy_dst(self) -> (usage: BufferUsages)
        ensures
            usage == (BufferUsages { copy_dst: true, ..self }),
    {
        BufferUsages { vertex: self.vertex, uniform: self.uniform, copy_dst: true }
    }
}

#[derive(Clone, Copy, Debug, PartialEq, Eq, Structural)]
pub enum TextureFormat {
    Rgb10a2Unorm,
    Bgra8Unorm,
    Depth32Float,
}

#[derive(Clone, Copy, Debug, PartialEq, Eq, Structural)]
pub struct Buffer {
    pub id: usize,
}

/// A texture together with its default view.
#[derive(Clone, Copy, Debug, PartialEq, Eq, Structural)]
pub struct TextureView {
    pub id: usize,
    pub width: u32,
    pub height: u32,
    pub format: TextureFormat,
}

#[derive(Clone, Copy, Debug, PartialEq, Eq, Structural)]
pub struct Sampler {
    pub id: usize,
}

#[derive(Clone, Copy, Debug, PartialEq, Eq, Structural)]
pub struct BindGroupLayout {
    pub id: usize,
}

#[derive(Clone, Copy, Debug, PartialEq, Eq, Structural)]
pub struct BindGroup {
    pub id: usize,
}

#[derive(Clone, Copy, Debug, PartialEq, Eq, Structural)]
pub struct ShaderModule {
    pub id: usize,
}

#[derive(Clone, Copy, Debug, PartialEq, Eq, Structural)]
pub struct RenderPipeline {
    pub id: usize,
}

/// The records `[0, words)` of a device buffer, ready to be bound for drawing.
#[derive(Clone, Copy, Debug, PartialEq, Eq, Structural)]
pub struct BufferSlice {
    pub buffer: Buffer,
    pub words: usize,
}

#[derive(Clone, Copy, Debug, PartialEq, Eq, Structural)]
pub enum BindingType {
    UniformBuffer,
    FilteringSampler,
    FloatTexture2d,
}

#[derive(Clone, Copy, Debug, PartialEq, Eq, Structural)]
pub struct BindGroupLayoutEntry {
    pub binding: u32,
    pub visibility: ShaderStages,
    pub ty: BindingType,
}

#[derive(Clone, Copy, Debug, PartialEq, Eq, Structural)]
pub enum BindingResource {
    EntireBuffer(Buffer),
    Sampler(Sampler),
    TextureView(TextureView),
}

#[derive(Clone, Copy, Debug, PartialEq, Eq, Structural)]
pub struct BindGroupEntry {
    pub binding: u32,
    pub resource: BindingResource,
}

#[derive(Clone, Copy, Debug, PartialEq, Eq, Structural)]
pub enum VertexFormat {
    Unorm8x4,
    Float32,
    Float32x2,
}

#[derive(Clone, Copy, Debug, PartialEq, Eq, Structural)]
pub struct VertexAttribute {
    pub format: VertexFormat,
    /// Byte offset of the attribute inside one record.
    pub offset: u64,
    pub shader_location: u32,
}

#[derive(Clone, Copy, Debug, PartialEq, Eq, Structural)]
pub enum BlendState {
    /// Source over destination, weighted by source alpha.
    AlphaBlending,
    /// Colors add up; alpha is replaced.
    Additive,
}

/// Depth test against a `Depth32Float` attachment: write enabled, nearer wins.
#[derive(Clone, Copy, Debug, PartialEq, Eq, Structural)]
pub enum DepthStencilState {
    LessDepth32Float,
}

/// One request to the device, in the order the device has to see them.
///
/// Offsets and sizes of buffers are counted in 32-bit words.
#[derive(Clone, Debug, PartialEq, Eq)]
#[allow(inconsistent_fields)]
pub enum Request {
    /// Create `buffer` holding exactly `contents`.
    CreateBuffer { buffer: Buffer, usage: BufferUsages, contents: Vec<u32> },
    /// Release `buffer`; its handle is never used again.
    DestroyBuffer { buffer: Buffer },
    /// Overwrite the words `[offset, offset + contents.len())` of `buffer`.
    WriteBuffer { buffer: Buffer, offset: usize, contents: Vec<u32> },
    /// Create a 2D texture usable as render attachment and as sampled texture.
    CreateTexture { view: TextureView },
    /// Release a texture; views of it are stale from here on.
    DestroyTexture { view: TextureView },
    /// Create a linearly filtering sampler.
    CreateSampler { sampler: Sampler },
    CreateBindGroupLayout { layout: BindGroupLayout, entries: Vec<BindGroupLayoutEntry> },
    CreateBindGroup { group: BindGroup, layout: BindGroupLayout, entries: Vec<BindGroupEntry> },
    /// Release a bind group; its handle is never used again.
    DestroyBindGroup { group: BindGroup },
    CreateShaderModule { module: ShaderModule, source: String },
    /// Create a triangle-strip pipeline with entry points `vs_main` and
    /// `fs_main`, one instance-stepped vertex buffer and one color target.
    CreateRenderPipeline {
        pipeline: RenderPipeline,
        module: ShaderModule,
        layouts: Vec<BindGroupLayout>,
        array_stride: u64,
        attributes: Vec<VertexAttribute>,
        output_format: TextureFormat,
        blend: BlendState,
        depth_stencil: Option<DepthStencilState>,
    },
    /// Finish the given passes and hand them to the queue as one submission.
    Submit { passes: Vec<RecordedPass> },
}

/// The mathematical content of a [`Request`].
#[allow(inconsistent_fields)]
pub enum RequestView {
    CreateBuffer { buffer: Buffer, usage: BufferUsages, contents: Seq<u32> },
    DestroyBuffer { buffer: Buffer },
    WriteBuffer { buffer: Buffer, offset: nat, contents: Seq<u32> },
    CreateTexture { view: TextureView },
    DestroyTexture { view: TextureView },
    CreateSampler { sampler: Sampler },
    CreateBindGroupLayout { layout: BindGroupLayout, entries: Seq<BindGroupLayoutEntry> },
    CreateBindGroup { group: BindGroup, layout: BindGroupLayout, entries: Seq<BindGroupEntry> },
    DestroyBindGroup { group: BindGroup },
    CreateShaderModule { module: ShaderModule, source: Seq<char> },
    CreateRenderPipeline {
        pipeline: RenderPipeline,
        module: ShaderModule,
        layouts: Seq<BindGroupLayout>,
        array_stride: u64,
        attributes: Seq<VertexAttribute>,
        output_format: TextureFormat,
        blend: BlendState,
        depth_stencil: Option<DepthStencilState>,
    },
    Submit { passes: Seq<RecordedPassView> },
}

impl View for Request {
    type V = RequestView;

    open spec fn view(&self) -> RequestView {
        match *self {
            Request::CreateBuffer { buffer, usage, contents } => RequestView::CreateBuffer {
                buffer,
                usage,
                contents: contents@,
            },
            Request::DestroyBuffer { buffer } => RequestView::DestroyBuffer { buffer },
            Request::WriteBuffer { buffer, offset, contents } => RequestView::WriteBuffer {
                buffer,
                offset: offset as nat,
                contents: contents@,
            },
            Request::CreateTexture { view } => RequestView::CreateTexture { view },
            Request::DestroyTexture { view } => RequestView::DestroyTexture { view },
            Request::CreateSampler { sampler } => RequestView::CreateSampler { sampler },
            Request::CreateBindGroupLayout { layout, entries } => RequestView::CreateBindGroupLayout {
                layout,
                entries: entries@,
            },
            Request::CreateBindGroup { group, layout, entries } => RequestView::CreateBindGroup {
                group,
                layout,
                entries: entries@,
            },
            Request::DestroyBindGroup { group } => RequestView::DestroyBindGroup { group },
            Request::CreateShaderModule { module, source } => RequestView::CreateShaderModule {
                module,
                source: source@,
            },
            Request::CreateRenderPipeline {
                pipeline,
                module,
                layouts,
                array_stride,
                attributes,
                output_format,
                blend,
                depth_stencil,
            } => RequestView::CreateRenderPipeline {
                pipeline,
                module,
                layouts: layouts@,
                array_stride,
                attributes: attributes@,
                output_format,
                blend,
                depth_stencil,
            },
            Request::Submit { passes } => RequestView::Submit {
                passes: passes@.map_values(|p: RecordedPass| p@),
            },
        }
    }
}

impl RequestView {
    /// What `buffer` holds after the device has carried out this request,
    /// given that it held `device` before.
    pub open spec fn apply_to(self, buffer: Buffer, device: Seq<u32>) -> Seq<u32> {
        match self {
            RequestView::CreateBuffer { buffer: b, contents, .. } => if b == buffer {
                contents
            } else {
                device
            },
            RequestView::DestroyBuffer { buffer: b } => if b == buffer {
                Seq::empty()
            } else {
                device
            },
            RequestView::WriteBuffer { buffer: b, offset, contents } => if b == buffer && offset
                + contents.len() <= device.len() {
                Seq::new(
                    device.len(),
                    |k: int|
                        if offset <= k < offset + contents.len() {
                            contents[k - offset]
                        } else {
                            device[k]
                        },
                )
            } else {
                device
            },
            _ => device,
        }
    }
}

/// What `buffer` holds after the device has carried out `requests` in order.
pub open spec fn replay(requests: Seq<RequestView>, buffer: Buffer, device: Seq<u32>) -> Seq<u32>
    decreases requests.len(),
{
    if requests.len() == 0 {
        device
    } else {
        requests.last().apply_to(buffer, replay(requests.drop_last(), buffer, device))
    }
}

/// The mathematical content of a [`WgpuContext`].
pub struct ContextView {
    /// Kind of every handle handed out so far; a handle's id is its index.
    pub resources: Seq<ResourceKind>,
    /// The requests waiting to be collected, oldest first.
    pub requests: Seq<RequestView>,
}

impl ContextView {
    /// The handle that is handed out next.
    pub open spec fn next(self) -> nat {
        self.resources.len()
    }

    /// The context after handing out `resources` and taking `requests`.
    pub open spec fn extended(self, resources: Seq<ResourceKind>, requests: Seq<RequestView>) -> Self {
        ContextView {
            resources: self.resources + resources,
            requests: self.requests + requests,
        }
    }
}

impl View for WgpuContext {
    type V = ContextView;

    open spec fn view(&self) -> ContextView {
        ContextView { resources: self.resources(), requests: self.requests() }
    }
}

/// The device as the library sees it: the handles handed out so far and the
/// requests that have not been collected yet.
pub struct WgpuContext {
    resources: Vec<ResourceKind>,
    queue: Vec<Request>,
}

impl WgpuContext {
    /// Kind of every handle handed out so far; a handle's id is its index.
    pub closed spec fn resources(&self) -> Seq<ResourceKind> {
        self.resources@
    }

    /// The requests waiting to be collected, oldest first.
    pub closed spec fn requests(&self) -> Seq<RequestView> {
        self.queue@.map_values(|r: Request| r@)
    }

    pub fn new() -> (ctx: WgpuContext)
        ensures
            ctx.resources() == Seq::<ResourceKind>::empty(),
            ctx.requests() == Seq::<RequestView>::empty(),
    {
        let ctx = WgpuContext { resources: Vec::new(), queue: Vec::new() };
        assert(ctx.requests() =~= Seq::<RequestView>::empty());
        ctx
    }

    /// Hands out a fresh handle id for a resource of the given kind.
    pub fn create(&mut self, kind: ResourceKind) -> (id: usize)
        ensures
            id == old(self).resources().len(),
            final(self).resources() == old(self).resources().push(kind),
            final(self).requests() == old(self).requests(),
    {
        let id = self.resources.len();
        self.resources.push(kind);
        id
    }

    /// Appends one request.
    pub fn request(&mut self, request: Request)
        ensures
            final(self).resources() == old(self).resources(),
            final(self).requests() == old(self).requests().push(request@),
    {
        self.queue.push(request);
        assert(self.requests() =~= old(self).requests().push(request@));
    }

    pub fn resource_count(&self) -> (n: usize)
        ensures
            n == self.resources().len(),
    {
        self.resources.len()
    }

    pub fn resource_kind(&self, id: usize) -> (kind: Option<ResourceKind>)
        ensures
            kind == if id < self.resources().len() {
                Some(self.resources()[id as int])
            } else {
                None
            },
    {
        if id < self.resources.len() {
            Some(self.resources[id])
        } else {
            None
        }
    }

    pub fn pending(&self) -> (n: usize)
        ensures
            n == self.requests().len(),
    {
        self.queue.len()
    }

    /// Hands the waiting requests to the caller, oldest first, and forgets them.
    pub fn take_requests(&mut self) -> (taken: Vec<Request>)
        ensures
            taken@.map_values(|r: Request| r@) == old(self).requests(),
            final(self).requests() == Seq::<RequestView>::empty(),
            final(self).resources() == old(self).resources(),
    {
        let mut taken: Vec<Request> = Vec::new();
        core::mem::swap(&mut self.queue, &mut taken);
        assert(self.requests() =~= Seq::<RequestView>::empty());
        taken
    }
}

} // verus!
