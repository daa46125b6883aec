use super::record::Record;
use super::{
    replay, BindGroup, BindGroupEntry, BindGroupLayout, BindGroupLayoutEntry, BindingResource,
    BindingType, Buffer, BufferUsages, RecordedPassView, RenderPass, Request, RequestView,
    ResourceKind, ShaderStages, WgpuContext,
};
use super::render_pass::Command;
use vstd::prelude::*;

verus! {

/// The mathematical state of a [`Uniform`].
pub struct UniformModel {
    pub layout: BindGroupLayout,
    pub bind_group: BindGroup,
    pub buffer: Buffer,
    /// Size of the cell in words: exactly one record.
    pub words: nat,
    pub visibility: ShaderStages,
}

/// The layout of a bind group with one uniform buffer at binding 0.
pub open spec fn uniform_layout_entries(visibility: ShaderStages) -> Seq<BindGroupLayoutEntry> {
    seq![BindGroupLayoutEntry { binding: 0, visibility, ty: BindingType::UniformBuffer }]
}

impl UniformModel {
    /// The requests that create this cell with `contents` as first value.
    pub open spec fn creation_requests(self, contents: Seq<u32>) -> Seq<RequestView> {
        seq![
            RequestView::CreateBuffer {
                buffer: self.buffer,
                usage: BufferUsages { vertex: false, uniform: true, copy_dst: true },
                contents,
            },
            RequestView::CreateBindGroupLayout {
                layout: self.layout,
                entries: uniform_layout_entries(self.visibility),
            },
            RequestView::CreateBindGroup {
                group: self.bind_group,
                layout: self.layout,
                entries: seq![
                    BindGroupEntry {
                        binding: 0,
                        resource: BindingResource::EntireBuffer(self.buffer),
                    },
                ],
            },
        ]
    }

    /// The request that overwrites the whole cell.
    pub open spec fn write_request(self, contents: Seq<u32>) -> RequestView {
        RequestView::WriteBuffer { buffer: self.buffer, offset: 0, contents }
    }
}

/// A single small device-visible value with its own bind group.
pub struct Uniform {
    pub layout: BindGroupLayout,
    bind_group: BindGroup,
    buffer: Buffer,
    words: usize,
    visibility: ShaderStages,
}

impl Uniform {
    pub closed spec fn model(&self) -> UniformModel {
        UniformModel {
            layout: self.layout,
            bind_group: self.bind_group,
            buffer: self.buffer,
            words: self.words as nat,
            visibility: self.visibility,
        }
    }

    /// Creates a cell of exactly the size of `data`, holding `data`, visible
    /// to the given shader stages.
    pub fn new<T: Record>(ctx: &mut WgpuContext, visibility: ShaderStages, data: &T) -> (uniform:
        Self)
        ensures
            uniform.model() == (UniformModel {
                buffer: Buffer { id: old(ctx).resources().len() as usize },
                layout: BindGroupLayout { id: (old(ctx).resources().len() + 1) as usize },
                bind_group: BindGroup { id: (old(ctx).resources().len() + 2) as usize },
                words: T::word_count(),
                visibility,
            }),
            final(ctx).resources() == old(ctx).resources().push(ResourceKind::Buffer).push(
                ResourceKind::BindGroupLayout,
            ).push(ResourceKind::BindGroup),
            final(ctx).requests() == old(ctx).requests() + uniform.model().creation_requests(
                data.words(),
            ),
    {
        let mut contents: Vec<u32> = Vec::new();
        data.encode(&mut contents);
        proof {
            data.lemma_layout();
            assert(contents@ =~= data.words());
        }
        let words = contents.len();
        let buffer = Buffer { id: ctx.create(ResourceKind::Buffer) };
        ctx.request(
            Request::CreateBuffer { buffer, usage: BufferUsages::uniform().with_copy_dst(), contents },
        );
        let layout = Self::new_layout(ctx, visibility);
        let bind_group = BindGroup { id: ctx.create(ResourceKind::BindGroup) };
        let mut entries: Vec<BindGroupEntry> = Vec::new();
        entries.push(BindGroupEntry { binding: 0, resource: BindingResource::EntireBuffer(buffer) });
        ctx.request(Request::CreateBindGroup { group: bind_group, layout, entries });
        let uniform = Uniform { layout, bind_group, buffer, words, visibility };
        assert(ctx.requests() =~= old(ctx).requests() + uniform.model().creation_requests(
            data.words(),
        ));
        uniform
    }

    /// Creates the layout of a bind group that holds one uniform cell.
    pub fn new_layout(ctx: &mut WgpuContext, visibility: ShaderStages) -> (layout: BindGroupLayout)
        ensures
            layout == (BindGroupLayout { id: old(ctx).resources().len() as usize }),
            final(ctx).resources() == old(ctx).resources().push(ResourceKind::BindGroupLayout),
            final(ctx).requests() == old(ctx).requests().push(
                RequestView::CreateBindGroupLayout {
                    layout,
                    entries: uniform_layout_entries(visibility),
                },
            ),
    {
        let layout = BindGroupLayout { id: ctx.create(ResourceKind::BindGroupLayout) };
        let mut entries: Vec<BindGroupLayoutEntry> = Vec::new();
        entries.push(
            BindGroupLayoutEntry { binding: 0, visibility, ty: BindingType::UniformBuffer },
        );
        assert(entries@ =~= uniform_layout_entries(visibility));
        ctx.request(Request::CreateBindGroupLayout { layout, entries });
        layout
    }

    /// Overwrites the whole cell with `data`, at once.
    pub fn update_buffer<T: Record>(&self, ctx: &mut WgpuContext, data: &T)
        requires
            T::word_count() == self.model().words,
        ensures
            final(ctx).resources() == old(ctx).resources(),
            final(ctx).requests() == old(ctx).requests().push(
                self.model().write_request(data.words()),
            ),
    {
        let mut contents: Vec<u32> = Vec::new();
        data.encode(&mut contents);
        assert(contents@ =~= data.words());
        ctx.request(Request::WriteBuffer { buffer: self.buffer, offset: 0, contents });
    }

    /// Size of the cell in words.
    pub fn words(&self) -> (words: usize)
        ensures
            words == self.model().words,
    {
        self.words
    }

    pub fn visibility(&self) -> (visibility: ShaderStages)
        ensures
            visibility == self.model().visibility,
    {
        self.visibility
    }

    pub fn buffer(&self) -> (buffer: Buffer)
        ensures
            buffer == self.model().buffer,
    {
        self.buffer
    }

    pub fn bind_group(&self) -> (group: BindGroup)
        ensures
            group == self.model().bind_group,
    {
        self.bind_group
    }

    /// Attaches the cell to bind group slot `group` of `pass`.
    pub fn bind(&self, group: u32, pass: &mut RenderPass)
        ensures
            final(pass)@ == (RecordedPassView {
                commands: old(pass)@.commands.push(
                    Command::SetBindGroup { index: group, group: self.model().bind_group },
                ),
                ..old(pass)@
            }),
    {
        pass.set_bind_group(group, self.bind_group);
    }
}

/// The mathematical state of a [`CachedUniform`].
pub struct CachedUniformModel<T> {
    pub uniform: UniformModel,
    /// The host copy.
    pub data: T,
    /// The host copy was changed since the last upload.
    pub needs_update: bool,
    /// The words the cell holds on the device once every request issued so
    /// far has been carried out.
    pub device: Seq<u32>,
}

impl<T: Record> CachedUniformModel<T> {
    pub open spec fn wf(self) -> bool {
        &&& self.uniform.words == T::word_count()
        &&& self.device.len() == T::word_count()
        &&& !self.needs_update ==> self.device == self.data.words()
    }

    pub open spec fn updated(self, data: T) -> Self {
        CachedUniformModel { data, needs_update: true, ..self }
    }

    /// The requests of a flush: one whole-cell write if the host copy
    /// changed, nothing otherwise.
    pub open spec fn flush_requests(self) -> Seq<RequestView> {
        if self.needs_update {
            seq![self.uniform.write_request(self.data.words())]
        } else {
            Seq::empty()
        }
    }

    pub open spec fn flushed(self) -> Self {
        CachedUniformModel { needs_update: false, device: self.data.words(), ..self }
    }

    /// The state after the host copy was replaced by each of `values` in turn.
    pub open spec fn updated_all(self, values: Seq<T>) -> Self
        decreases values.len(),
    {
        if values.len() == 0 {
            self
        } else {
            self.updated_all(values.drop_last()).updated(values.last())
        }
    }
}

/// However often the host copy is replaced before a flush, the flush issues
/// one write, of the last value, and a second flush issues none.
pub proof fn lemma_flush_uploads_once<T: Record>(m: CachedUniformModel<T>, values: Seq<T>)
    requires
        m.wf(),
        values.len() > 0,
    ensures
        m.updated_all(values).wf(),
        m.updated_all(values).flush_requests() == seq![
            m.uniform.write_request(values.last().words()),
        ],
        m.updated_all(values).flushed().wf(),
        m.updated_all(values).flushed().device == values.last().words(),
        m.updated_all(values).flushed().device == replay(
            m.updated_all(values).flush_requests(),
            m.uniform.buffer,
            m.device,
        ),
        m.updated_all(values).flushed().flush_requests() == Seq::<RequestView>::empty(),
{
    lemma_updates_keep_cell(m, values.drop_last());
    values.last().lemma_layout();
    let requests = m.updated_all(values).flush_requests();
    reveal_with_fuel(replay, 2);
    assert(requests.drop_last() =~= Seq::<RequestView>::empty());
    assert(requests.last().apply_to(m.uniform.buffer, m.device) =~= values.last().words());
}

proof fn lemma_updates_keep_cell<T: Record>(m: CachedUniformModel<T>, values: Seq<T>)
    requires
        m.wf(),
    ensures
        m.updated_all(values).wf(),
        m.updated_all(values).uniform == m.uniform,
        m.updated_all(values).device == m.device,
    decreases values.len(),
{
    if values.len() > 0 {
        lemma_updates_keep_cell(m, values.drop_last());
    }
}

/// A uniform cell with a host copy that is uploaded on demand.
pub struct CachedUniform<T: Record> {
    uniform: Uniform,
    data: T,
    needs_update: bool,
    device: Ghost<Seq<u32>>,
}

impl<T: Record> CachedUniform<T> {
    pub closed spec fn model(&self) -> CachedUniformModel<T> {
        CachedUniformModel {
            uniform: self.uniform.model(),
            data: self.data,
            needs_update: self.needs_update,
            device: self.device@,
        }
    }

    pub open spec fn wf(&self) -> bool {
        self.model().wf()
    }

    pub fn new(ctx: &mut WgpuContext, visibility: ShaderStages, data: T) -> (cached: Self)
        ensures
            cached.wf(),
            cached.model() == (CachedUniformModel {
                uniform: UniformModel {
                    buffer: Buffer { id: old(ctx).resources().len() as usize },
                    layout: BindGroupLayout { id: (old(ctx).resources().len() + 1) as usize },
                    bind_group: BindGroup { id: (old(ctx).resources().len() + 2) as usize },
                    words: T::word_count(),
                    visibility,
                },
                data,
                needs_update: false,
                device: data.words(),
            }),
            final(ctx).resources() == old(ctx).resources().push(ResourceKind::Buffer).push(
                ResourceKind::BindGroupLayout,
            ).push(ResourceKind::BindGroup),
            final(ctx).requests() == old(ctx).requests()
                + cached.model().uniform.creation_requests(data.words()),
    {
        let uniform = Uniform::new(ctx, visibility, &data);
        proof {
            data.lemma_layout();
        }
        CachedUniform { uniform, data, needs_update: false, device: Ghost(data.words()) }
    }

    /// Replaces the host copy and marks the cell as due for upload.
    pub fn update(&mut self, data: T)
        requires
            old(self).wf(),
        ensures
            final(self).wf(),
            final(self).model() == old(self).model().updated(data),
    {
        self.data = data;
        self.needs_update = true;
    }

    /// Hands out the host copy for mutation in place and marks the cell as
    /// due for upload.
    pub fn data_mut(&mut self) -> (data: &mut T)
        requires
            old(self).wf(),
        ensures
            *data == old(self).model().data,
            final(self).wf(),
            final(self).model() == old(self).model().updated(*final(data)),
    {
        self.needs_update = true;
        &mut self.data
    }

    pub fn data(&self) -> (data: &T)
        ensures
            *data == self.model().data,
    {
        &self.data
    }

    pub fn needs_update(&self) -> (due: bool)
        ensures
            due == self.model().needs_update,
    {
        self.needs_update
    }

    pub fn uniform(&self) -> (uniform: &Uniform)
        ensures
            uniform.model() == self.model().uniform,
    {
        &self.uniform
    }

    /// Uploads the host copy if it changed since the last upload.
    pub fn update_buffers(&mut self, ctx: &mut WgpuContext)
        requires
            old(self).wf(),
        ensures
            final(self).wf(),
            final(self).model() == old(self).model().flushed(),
            final(ctx).resources() == old(ctx).resources(),
            final(ctx).requests() == old(ctx).requests() + old(self).model().flush_requests(),
    {
        if self.needs_update {
            self.uniform.update_buffer(ctx, &self.data);
            self.needs_update = false;
            self.device = Ghost(self.data.words());
            proof {
                self.data.lemma_layout();
            }
            assert(ctx.requests() =~= old(ctx).requests() + old(self).model().flush_requests());
        } else {
            assert(ctx.requests() =~= old(ctx).requests() + old(self).model().flush_requests());
            assert(self.model() == old(self).model().flushed());
        }
    }

    /// Attaches the cell to bind group slot `group` of `pass`.
    pub fn bind(&self, group: u32, pass: &mut RenderPass)
        ensures
            final(pass)@ == (RecordedPassView {
                commands: old(pass)@.commands.push(
                    Command::SetBindGroup { index: group, group: self.model().uniform.bind_group },
                ),
                ..old(pass)@
            }),
    {
        self.uniform.bind(group, pass);
    }
}

} // verus!
