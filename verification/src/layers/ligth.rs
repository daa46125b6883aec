use crate::ligth_pipeline::LigthRenderPass;
use crate::shaders::{LigthUniform, ShadowInstance};
use crate::wgpu_components::vec_buffer::{lemma_pushed_wf, lemma_touched_wf};
use crate::wgpu_components::{
    BufferSlice, BufferUsages, CachedUniform, CachedUniformModel, Command, ContextView, Record,
    RequestView, ResourceKind, ShaderStages, Uniform, UniformModel, VecBuffer, VecBufferModel,
    WgpuContext,
};
use vstd::prelude::*;

verus! {

/// The mathematical state of a [`LigthLayer`].
pub struct LigthLayerModel {
    /// The cell that tells the shader where the sentinel segment is.
    pub ligth_index: UniformModel,
    /// The registered lights, by handle.
    pub ligths: Seq<CachedUniformModel<LigthUniform>>,
    /// The shadow segments, followed by the sentinel.
    pub shadows: VecBufferModel<ShadowInstance>,
}

impl LigthLayerModel {
    /// The segment buffer ends in the sentinel, and every cell has the
    /// size of what is written to it.
    pub open spec fn wf(self) -> bool {
        &&& self.shadows.wf()
        &&& self.shadows.data.len() > 0
        &&& self.shadows.data.last() == ShadowInstance::sentinel()
        &&& self.ligth_index.words == 1
        &&& forall|i: int| 0 <= i < self.ligths.len() ==> (#[trigger] self.ligths[i]).wf()
    }

    /// The segments that were added, in the order of their handles.
    pub open spec fn segments(self) -> Seq<ShadowInstance> {
        self.shadows.data.drop_last()
    }

    /// Number of instances that a draw covers: all segments and the sentinel.
    pub open spec fn instances(self) -> nat {
        self.shadows.data.len()
    }

    /// The state after `shadow` was added.
    pub open spec fn with_shadow(self, shadow: ShadowInstance) -> Self {
        LigthLayerModel {
            shadows: self.shadows.touched((self.shadows.data.len() - 1) as usize, shadow).pushed(
                ShadowInstance::sentinel(),
            ),
            ..self
        }
    }

    /// The state after each segment of `shadows` was added in turn.
    pub open spec fn with_shadows(self, shadows: Seq<ShadowInstance>) -> Self
        decreases shadows.len(),
    {
        if shadows.len() == 0 {
            self
        } else {
            self.with_shadows(shadows.drop_last()).with_shadow(shadows.last())
        }
    }

    /// The uploads of the lights that changed, in the order of their handles.
    pub open spec fn flush_requests(ligths: Seq<CachedUniformModel<LigthUniform>>) -> Seq<
        RequestView,
    >
        decreases ligths.len(),
    {
        if ligths.len() == 0 {
            Seq::empty()
        } else {
            Self::flush_requests(ligths.drop_last()) + ligths.last().flush_requests()
        }
    }

    /// For each light in the order of the handles: its cell at bind group
    /// slot 3, then one draw of `instances` instances.
    pub open spec fn ligth_commands(
        ligths: Seq<CachedUniformModel<LigthUniform>>,
        instances: u32,
    ) -> Seq<Command>
        decreases ligths.len(),
    {
        if ligths.len() == 0 {
            Seq::empty()
        } else {
            Self::ligth_commands(ligths.drop_last(), instances) + seq![
                Command::SetBindGroup { index: 3, group: ligths.last().uniform.bind_group },
                Command::Draw { vertices: 4, instances },
            ]
        }
    }

    /// The request that tells the shader where the sentinel is.
    pub open spec fn index_request(self) -> RequestView {
        self.ligth_index.write_request(seq![(self.shadows.data.len() - 1) as u32])
    }

    /// The state after a draw through the context `ctx`: the segments are
    /// on the device and every light is uploaded.
    pub open spec fn drawn(self, ctx: ContextView) -> Self {
        LigthLayerModel {
            shadows: self.shadows.synced_in(ctx),
            ligths: self.ligths.map_values(|l: CachedUniformModel<LigthUniform>| l.flushed()),
            ..self
        }
    }

    /// The context after a draw: the sentinel index is written, then the
    /// segments are brought up to date, then the lights that changed.
    pub open spec fn draw_context(self, ctx: ContextView) -> ContextView {
        self.shadows.sync_context(
            ctx.extended(Seq::empty(), seq![self.index_request()]),
        ).extended(Seq::empty(), Self::flush_requests(self.ligths))
    }

    /// What a draw records into the lighting pass: the segments at vertex
    /// buffer slot 0, the sentinel index at bind group slot 2, then one
    /// draw per light over all segments and the sentinel.
    pub open spec fn draw_commands(self, ctx: ContextView) -> Seq<Command> {
        seq![
            Command::SetVertexBuffer { slot: 0, slice: self.shadows.synced_in(ctx).slice().unwrap() },
            Command::SetBindGroup { index: 2, group: self.ligth_index.bind_group },
        ] + Self::ligth_commands(self.ligths, self.shadows.data.len() as u32)
    }
}

/// Sentinel invariant: after any run of `add_shadow` calls the last stored
/// segment is the degenerate sentinel, a draw covers one instance more
/// than segments were added, and the segments are those that were added,
/// in order.
pub proof fn lemma_sentinel_stays_last(m: LigthLayerModel, shadows: Seq<ShadowInstance>)
    requires
        m.wf(),
        m.shadows.data.len() + shadows.len() <= usize::MAX,
    ensures
        m.with_shadows(shadows).wf(),
        m.with_shadows(shadows).shadows.data.last().is_degenerate(),
        m.with_shadows(shadows).instances() == m.instances() + shadows.len(),
        m.with_shadows(shadows).segments() == m.segments() + shadows,
    decreases shadows.len(),
{
    if shadows.len() > 0 {
        let front = shadows.drop_last();
        lemma_sentinel_stays_last(m, front);
        let before = m.with_shadows(front);
        lemma_shadow_added(before, shadows.last());
        assert(m.segments() + front + seq![shadows.last()] =~= m.segments() + shadows);
    } else {
        assert(m.segments() + shadows =~= m.segments());
    }
}

/// Adding one segment stores it where the sentinel was and puts a new
/// sentinel behind it.
pub proof fn lemma_shadow_added(m: LigthLayerModel, shadow: ShadowInstance)
    requires
        m.wf(),
        m.shadows.data.len() < usize::MAX,
    ensures
        m.with_shadow(shadow).wf(),
        m.with_shadow(shadow).instances() == m.instances() + 1,
        m.with_shadow(shadow).segments() == m.segments().push(shadow),
        m.with_shadow(shadow).ligths == m.ligths,
        m.with_shadow(shadow).ligth_index == m.ligth_index,
{
    let last = (m.shadows.data.len() - 1) as usize;
    lemma_touched_wf(m.shadows, last, shadow);
    lemma_pushed_wf(m.shadows.touched(last, shadow), ShadowInstance::sentinel());
    assert(m.with_shadow(shadow).segments() =~= m.segments().push(shadow));
}

/// The lights of a scene and the segments that cast their shadows.
pub struct LigthLayer {
    ligth_index: Uniform,
    ligths: Vec<CachedUniform<LigthUniform>>,
    shadows: VecBuffer<ShadowInstance>,
}

impl LigthLayer {
    pub closed spec fn model(&self) -> LigthLayerModel {
        LigthLayerModel {
            ligth_index: self.ligth_index.model(),
            ligths: self.ligths@.map_values(|l: CachedUniform<LigthUniform>| l.model()),
            shadows: self.shadows.model(),
        }
    }

    pub closed spec fn shadows_fit(&self) -> bool {
        self.shadows.fits()
    }

    pub open spec fn wf(&self) -> bool {
        self.model().wf() && self.shadows_fit()
    }

    /// The layer as it is created through the context `ctx`: no light, no
    /// segment but the sentinel.
    pub open spec fn created(ctx: ContextView) -> LigthLayerModel {
        LigthLayerModel {
            ligth_index: UniformModel {
                buffer: crate::wgpu_components::Buffer { id: (ctx.next() + 1) as usize },
                layout: crate::wgpu_components::BindGroupLayout { id: (ctx.next() + 2) as usize },
                bind_group: crate::wgpu_components::BindGroup { id: (ctx.next() + 3) as usize },
                words: 1,
                visibility: ShaderStages::Vertex,
            },
            ligths: Seq::empty(),
            shadows: VecBufferModel::<ShadowInstance>::created(ctx).pushed(
                ShadowInstance::sentinel(),
            ),
        }
    }

    /// The context after the layer was created.
    pub open spec fn creation_context(ctx: ContextView) -> ContextView {
        VecBufferModel::<ShadowInstance>::creation_context(
            ctx,
            BufferUsages { vertex: true, uniform: false, copy_dst: false },
        ).extended(
            seq![ResourceKind::Buffer, ResourceKind::BindGroupLayout, ResourceKind::BindGroup],
            Self::created(ctx).ligth_index.creation_requests(seq![0u32]),
        )
    }

    pub fn new(ctx: &mut WgpuContext) -> (layer: Self)
        ensures
            layer.wf(),
            layer.model() == Self::created(old(ctx)@),
            final(ctx)@ == Self::creation_context(old(ctx)@),
    {
        let mut shadows = VecBuffer::new(ctx, BufferUsages::vertex());
        shadows.push(ShadowInstance::default());
        let index: u32 = 0;
        let ligth_index = Uniform::new(ctx, ShaderStages::Vertex, &index);
        let layer = Self { ligth_index, ligths: Vec::new(), shadows };
        assert(layer.model().ligths =~= Seq::empty());
        assert(ctx@.resources =~= Self::creation_context(old(ctx)@).resources);
        assert(ctx@.requests =~= Self::creation_context(old(ctx)@).requests);
        layer
    }

    /// Number of segments that were added.
    pub fn shadow_count(&self) -> (count: usize)
        requires
            self.wf(),
        ensures
            count == self.model().segments().len(),
    {
        self.shadows.len() - 1
    }

    /// The stored segment at `index`; the one behind the last handle is
    /// the sentinel.
    pub fn get_shadow(&self, index: usize) -> (shadow: &ShadowInstance)
        requires
            index < self.model().instances(),
        ensures
            *shadow == self.model().shadows.data[index as int],
    {
        self.shadows.get_ref(index)
    }

    /// The light with handle `index`.
    pub fn get_ligth(&self, index: usize) -> (ligth: &CachedUniform<LigthUniform>)
        requires
            index < self.model().ligths.len(),
        ensures
            ligth.model() == self.model().ligths[index as int],
    {
        &self.ligths[index]
    }

    pub fn ligth_count(&self) -> (count: usize)
        ensures
            count == self.model().ligths.len(),
    {
        self.ligths.len()
    }

    /// Hands out the segment with handle `index` for repositioning and
    /// marks it as due for upload.
    pub fn get_shadow_mut(&mut self, index: usize) -> (shadow: &mut ShadowInstance)
        requires
            old(self).wf(),
            index < old(self).model().segments().len(),
        ensures
            *shadow == old(self).model().segments()[index as int],
            final(self).model() == (LigthLayerModel {
                shadows: old(self).model().shadows.touched(index, *final(shadow)),
                ..old(self).model()
            }),
            final(self).model().segments() == old(self).model().segments().update(
                index as int,
                *final(shadow),
            ),
            final(self).wf(),
    {
        proof {
            assert forall|v: ShadowInstance|
                (#[trigger] old(self).model().shadows.touched(index, v)).data.drop_last() == old(
                    self,
                ).model().segments().update(index as int, v) by {
                assert(old(self).model().shadows.touched(index, v).data.drop_last() =~= old(
                    self,
                ).model().segments().update(index as int, v));
            }
        }
        self.shadows.get_mut(index)
    }

    /// Adds a segment: it takes the place of the sentinel, and a new
    /// sentinel is appended. Returns the handle of the segment.
    pub fn add_shadow(&mut self, shadow: ShadowInstance) -> (index: usize)
        requires
            old(self).wf(),
        ensures
            final(self).wf(),
            index == old(self).model().segments().len(),
            final(self).model() == old(self).model().with_shadow(shadow),
            final(self).model().segments() == old(self).model().segments().push(shadow),
            final(self).model().instances() == old(self).model().instances() + 1,
    {
        let index = self.shadows.len() - 1;
        *self.shadows.get_mut(index) = shadow;
        self.shadows.push(ShadowInstance::default());
        proof {
            lemma_shadow_added(old(self).model(), shadow);
        }
        index
    }

    /// Hands out the light with handle `index`. Whatever is changed
    /// through its methods is uploaded with the next draw.
    pub fn get_ligth_mut(&mut self, index: usize) -> (ligth: &mut CachedUniform<LigthUniform>)
        requires
            old(self).wf(),
            index < old(self).model().ligths.len(),
        ensures
            ligth.model() == old(self).model().ligths[index as int],
            ligth.wf(),
            final(self).model() == (LigthLayerModel {
                ligths: old(self).model().ligths.update(index as int, final(ligth).model()),
                ..old(self).model()
            }),
            final(ligth).wf() ==> final(self).wf(),
    {
        proof {
            assert(old(self).model().ligths[index as int].wf());
            assert forall|l: CachedUniform<LigthUniform>|
                (#[trigger] old(self).ligths@.update(index as int, l)).map_values(
                    |l: CachedUniform<LigthUniform>| l.model(),
                ) == old(self).model().ligths.update(index as int, l.model()) by {
                assert(old(self).ligths@.update(index as int, l).map_values(
                    |l: CachedUniform<LigthUniform>| l.model(),
                ) =~= old(self).model().ligths.update(index as int, l.model()));
            }
        }
        &mut self.ligths[index]
    }

    /// Registers a light with its own cell, visible to both shader stages.
    /// Returns the handle of the light.
    pub fn add_ligth(&mut self, ctx: &mut WgpuContext, ligth: LigthUniform) -> (index: usize)
        requires
            old(self).wf(),
        ensures
            final(self).wf(),
            index == old(self).model().ligths.len(),
            final(self).model() == (LigthLayerModel {
                ligths: old(self).model().ligths.push(final(self).model().ligths.last()),
                ..old(self).model()
            }),
            final(self).model().ligths.last() == (CachedUniformModel {
                uniform: UniformModel {
                    buffer: crate::wgpu_components::Buffer { id: old(ctx)@.next() as usize },
                    layout: crate::wgpu_components::BindGroupLayout {
                        id: (old(ctx)@.next() + 1) as usize,
                    },
                    bind_group: crate::wgpu_components::BindGroup {
                        id: (old(ctx)@.next() + 2) as usize,
                    },
                    words: 4,
                    visibility: ShaderStages::VertexFragment,
                },
                data: ligth,
                needs_update: false,
                device: ligth.words(),
            }),
            final(ctx)@ == old(ctx)@.extended(
                seq![ResourceKind::Buffer, ResourceKind::BindGroupLayout, ResourceKind::BindGroup],
                final(self).model().ligths.last().uniform.creation_requests(ligth.words()),
            ),
    {
        let cached = CachedUniform::new(ctx, ShaderStages::VertexFragment, ligth);
        self.ligths.push(cached);
        proof {
            assert(self.model().ligths =~= old(self).model().ligths.push(cached.model()));
            assert(ctx@.resources =~= old(ctx)@.resources + seq![
                ResourceKind::Buffer,
                ResourceKind::BindGroupLayout,
                ResourceKind::BindGroup,
            ]);
        }
        self.ligths.len() - 1
    }

    /// Draws the shadows of every light into the lighting pass: one
    /// instanced draw per light over all segments and the sentinel.
    /// Before that the segments and the lights that changed are uploaded.
    pub fn draw(&mut self, ctx: &mut WgpuContext, pass: &mut LigthRenderPass)
        requires
            old(self).wf(),
            old(self).model().instances() <= u32::MAX,
        ensures
            final(self).wf(),
            final(self).model() == old(self).model().drawn(old(ctx)@),
            final(ctx)@ == old(self).model().draw_context(old(ctx)@),
            final(pass)@ == old(pass)@.with_ligth(old(self).model().draw_commands(old(ctx)@)),
    {
        let ghost before = self.model();
        let shadows_len = self.shadows.len() as u32;

        let idx = shadows_len - 1;
        self.ligth_index.update_buffer(ctx, &idx);
        let ghost written = ctx@;
        assert(written == old(ctx)@.extended(Seq::empty(), seq![before.index_request()])) by {
            assert(written.resources =~= old(ctx)@.resources + Seq::<ResourceKind>::empty());
            assert(written.requests =~= old(ctx)@.requests + seq![before.index_request()]);
        }

        let slice = self.shadows.view(ctx);
        let buffer = match slice {
            Some(buffer) => buffer,
            None => {
                assert(false);
                BufferSlice { buffer: self.shadows.buffer(), words: 0 }
            },
        };
        assert(before.shadows.synced_in(written) == before.shadows.synced_in(old(ctx)@));

        pass.ligth.set_vertex_buffer(0, buffer);
        self.ligth_index.bind(2, &mut pass.ligth);

        let ghost synced = ctx@;
        let ghost head = old(pass)@.ligth.commands + seq![
            Command::SetVertexBuffer { slot: 0, slice: buffer },
            Command::SetBindGroup { index: 2, group: before.ligth_index.bind_group },
        ];
        assert(pass.ligth@.commands =~= head);
        let count = self.ligths.len();
        let mut i: usize = 0;
        assert(before.ligths.take(0) =~= Seq::empty());
        assert(synced.requests + LigthLayerModel::flush_requests(before.ligths.take(0))
            =~= synced.requests);
        assert(head + LigthLayerModel::ligth_commands(before.ligths.take(0), shadows_len) =~= head);
        while i < count
            invariant
                i <= count,
                count == before.ligths.len(),
                self.ligths@.len() == count,
                self.ligth_index == old(self).ligth_index,
                self.shadows.model() == before.shadows.synced_in(old(ctx)@),
                self.shadows.wf(),
                forall|j: int| 0 <= j < i ==> (#[trigger] self.ligths@[j]).model() == before.ligths[j].flushed(),
                forall|j: int| i <= j < count ==> (#[trigger] self.ligths@[j]).model() == before.ligths[j],
                forall|j: int| 0 <= j < count ==> (#[trigger] before.ligths[j]).wf(),
                ctx@.resources == synced.resources,
                ctx@.requests == synced.requests + LigthLayerModel::flush_requests(
                    before.ligths.take(i as int),
                ),
                pass.ligth@.descriptor == old(pass)@.ligth.descriptor,
                pass.ligth@.commands == head + LigthLayerModel::ligth_commands(
                    before.ligths.take(i as int),
                    shadows_len,
                ),
                pass.normal@ == old(pass)@.normal,
                pass.diffuse@ == old(pass)@.diffuse,
            decreases count - i,
        {
            let ghost requests = ctx@.requests;
            let ghost commands = pass.ligth@.commands;
            assert(self.ligths@[i as int].model() == before.ligths[i as int]);
            self.ligths[i].update_buffers(ctx);
            self.ligths[i].bind(3, &mut pass.ligth);
            pass.ligth.draw(4, shadows_len);
            proof {
                let done = before.ligths.take(i as int);
                let next = before.ligths.take(i + 1);
                assert(next.drop_last() =~= done);
                assert(next.last() == before.ligths[i as int]);
                assert(ctx@.requests =~= synced.requests + LigthLayerModel::flush_requests(next));
                assert(pass.ligth@.commands =~= head + LigthLayerModel::ligth_commands(
                    next,
                    shadows_len,
                ));
            }
            i += 1;
        }
        proof {
            assert(before.ligths.take(count as int) =~= before.ligths);
            assert(self.model().ligths =~= before.drawn(old(ctx)@).ligths);
            assert(ctx@.resources =~= before.draw_context(old(ctx)@).resources);
            assert(ctx@.requests =~= before.draw_context(old(ctx)@).requests);
            assert(pass.ligth@.commands =~= old(pass)@.ligth.commands + before.draw_commands(
                old(ctx)@,
            ));
            assert forall|j: int| 0 <= j < count implies (#[trigger] self.model().ligths[j]).wf() by {
                assert(before.ligths[j].wf());
            }
        }
    }
}

} // verus!
