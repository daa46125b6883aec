use crate::ligth_pipeline::{LigthRenderPass, LigthRenderPassView};
use crate::shaders::QuadInstance;
use crate::wgpu_components::{
    BufferSlice, BufferUsages, Command, ContextView, VecBuffer, VecBufferModel, WgpuContext,
};
use vstd::prelude::*;

verus! {

/// The commands that draw `instances` instances from `slice`: the slice
/// goes to vertex buffer slot 0, and each instance is a strip of four
/// vertices.
pub open spec fn draw_commands(slice: BufferSlice, instances: u32) -> Seq<Command> {
    seq![
        Command::SetVertexBuffer { slot: 0, slice },
        Command::Draw { vertices: 4, instances },
    ]
}

/// A layer of quads, drawn into the normal and the diffuse pass alike.
pub struct QuadLayer {
    pub buffer: VecBuffer<QuadInstance>,
}

impl QuadLayer {
    /// The layer can be drawn: an instanced draw takes its quads.
    pub open spec fn wf(&self) -> bool {
        &&& self.buffer.wf()
        &&& self.buffer.model().data.len() <= u32::MAX
    }

    /// The passes after a layer in state `buffer` was drawn through `ctx`:
    /// unchanged if the layer is empty, else one draw of all quads in the
    /// normal pass and the same draw in the diffuse pass.
    pub open spec fn drawn(
        buffer: VecBufferModel<QuadInstance>,
        ctx: ContextView,
        pass: LigthRenderPassView,
    ) -> LigthRenderPassView {
        match buffer.synced_in(ctx).slice() {
            None => pass,
            Some(slice) => pass.with_normal(
                draw_commands(slice, buffer.data.len() as u32),
            ).with_diffuse(draw_commands(slice, buffer.data.len() as u32)),
        }
    }

    pub fn new(ctx: &mut WgpuContext) -> (layer: Self)
        ensures
            layer.wf(),
            layer.buffer.model() == VecBufferModel::<QuadInstance>::created(old(ctx)@),
            final(ctx)@ == VecBufferModel::<QuadInstance>::creation_context(
                old(ctx)@,
                BufferUsages { vertex: true, uniform: false, copy_dst: false },
            ),
    {
        Self { buffer: VecBuffer::new(ctx, BufferUsages::vertex()) }
    }

    /// Appends a quad. Returns its index.
    pub fn push(&mut self, quad: QuadInstance) -> (index: usize)
        requires
            old(self).buffer.wf(),
        ensures
            final(self).buffer.wf(),
            index == old(self).buffer.model().data.len(),
            final(self).buffer.model() == old(self).buffer.model().pushed(quad),
    {
        self.buffer.push(quad)
    }

    pub fn get_ref(&self, index: usize) -> (quad: &QuadInstance)
        requires
            index < self.buffer.model().data.len(),
        ensures
            *quad == self.buffer.model().data[index as int],
    {
        self.buffer.get_ref(index)
    }

    /// Hands out the quad at `index` for mutation in place and marks it
    /// as due for upload.
    pub fn get_mut(&mut self, index: usize) -> (quad: &mut QuadInstance)
        requires
            old(self).buffer.wf(),
            index < old(self).buffer.model().data.len(),
        ensures
            *quad == old(self).buffer.model().data[index as int],
            final(self).buffer.model() == old(self).buffer.model().touched(index, *final(quad)),
            final(self).buffer.wf(),
    {
        self.buffer.get_mut(index)
    }

    /// Removes all quads; whatever is pushed next is sent in full.
    pub fn clear(&mut self)
        requires
            old(self).buffer.wf(),
        ensures
            final(self).buffer.wf(),
            final(self).buffer.model() == old(self).buffer.model().cleared(),
    {
        self.buffer.clear();
    }

    pub fn len(&self) -> (len: usize)
        ensures
            len == self.buffer.model().data.len(),
    {
        self.buffer.len()
    }

    /// Brings the quads to the device, once, and draws them into the
    /// normal pass and into the diffuse pass from the same slice.
    pub fn draw(&mut self, ctx: &mut WgpuContext, pass: &mut LigthRenderPass)
        requires
            old(self).wf(),
        ensures
            final(self).wf(),
            final(self).buffer.model() == old(self).buffer.model().synced_in(old(ctx)@),
            final(ctx)@ == old(self).buffer.model().sync_context(old(ctx)@),
            final(pass)@ == Self::drawn(old(self).buffer.model(), old(ctx)@, old(pass)@),
    {
        let len = self.buffer.len() as u32;
        if let Some(quads) = self.buffer.view(ctx) {
            pass.normal.set_vertex_buffer(0, quads);
            pass.normal.draw(4, len);

            pass.diffuse.set_vertex_buffer(0, quads);
            pass.diffuse.draw(4, len);
            assert(pass.normal@.commands =~= old(pass)@.normal.commands + draw_commands(quads, len));
            assert(pass.diffuse@.commands =~= old(pass)@.diffuse.commands + draw_commands(
                quads,
                len,
            ));
        }
    }
}

} // verus!
