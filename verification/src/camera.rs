use crate::ligth_pipeline::LigthRenderPass;
use crate::math::{Vec2, ONE};
use crate::wgpu_components::{
    BindGroup, BindGroupLayout, Buffer, CachedUniform, CachedUniformModel, Command, ContextView,
    Record, ResourceKind, ShaderStages, UniformModel, WgpuContext,
};
use vstd::prelude::*;

verus! {

/// What the vertex stage knows of a camera: where it looks, and how much
/// of the world it sees in each direction.
#[derive(Clone, Copy, Debug, PartialEq, Eq, Structural)]
pub struct CameraUniform {
    pub pos: Vec2,
    pub size: Vec2,
}

impl Record for CameraUniform {
    open spec fn word_count() -> nat {
        4
    }

    open spec fn words(&self) -> Seq<u32> {
        seq![self.pos.x, self.pos.y, self.size.x, self.size.y]
    }

    proof fn lemma_layout(&self) {
    }

    fn word_len() -> (n: usize) {
        4
    }

    fn encode(&self, out: &mut Vec<u32>) {
        out.push(self.pos.x);
        out.push(self.pos.y);
        out.push(self.size.x);
        out.push(self.size.y);
        assert(out@ =~= old(out)@ + self.words());
    }
}

/// A camera: a cached uniform cell that every pass binds at slot 1.
pub struct Camera {
    uniform: CachedUniform<CameraUniform>,
}

impl Camera {
    pub closed spec fn model(&self) -> CachedUniformModel<CameraUniform> {
        self.uniform.model()
    }

    pub open spec fn wf(&self) -> bool {
        self.model().wf()
    }

    /// The camera at the origin that sees one unit in each direction.
    pub open spec fn initial() -> CameraUniform {
        CameraUniform { pos: Vec2 { x: 0, y: 0 }, size: Vec2 { x: ONE, y: ONE } }
    }

    /// The camera as it is created through the context `ctx`.
    pub open spec fn created(ctx: ContextView) -> CachedUniformModel<CameraUniform> {
        CachedUniformModel {
            uniform: UniformModel {
                buffer: Buffer { id: ctx.next() as usize },
                layout: BindGroupLayout { id: (ctx.next() + 1) as usize },
                bind_group: BindGroup { id: (ctx.next() + 2) as usize },
                words: 4,
                visibility: ShaderStages::Vertex,
            },
            data: Self::initial(),
            needs_update: false,
            device: Self::initial().words(),
        }
    }

    /// The context after a camera was created.
    pub open spec fn creation_context(ctx: ContextView) -> ContextView {
        ctx.extended(
            seq![ResourceKind::Buffer, ResourceKind::BindGroupLayout, ResourceKind::BindGroup],
            Self::created(ctx).uniform.creation_requests(Self::initial().words()),
        )
    }

    /// The command that binds a camera to a pass.
    pub open spec fn bind_commands(model: CachedUniformModel<CameraUniform>) -> Seq<Command> {
        seq![Command::SetBindGroup { index: 1, group: model.uniform.bind_group }]
    }

    pub fn new(ctx: &mut WgpuContext) -> (camera: Self)
        ensures
            camera.wf(),
            camera.model() == Self::created(old(ctx)@),
            final(ctx)@ == Self::creation_context(old(ctx)@),
    {
        let camera = Self {
            uniform: CachedUniform::new(
                ctx,
                ShaderStages::Vertex,
                CameraUniform { pos: Vec2::from_bits(0, 0), size: Vec2::from_bits(ONE, ONE) },
            ),
        };
        assert(ctx@.resources =~= Self::creation_context(old(ctx)@).resources);
        camera
    }

    /// Looks at the origin and sees `size` of the world in each direction;
    /// the device learns of it with the next upload.
    pub fn resize(&mut self, size: Vec2)
        requires
            old(self).wf(),
        ensures
            final(self).wf(),
            final(self).model() == old(self).model().updated(
                CameraUniform { pos: Vec2 { x: 0, y: 0 }, size },
            ),
    {
        self.uniform.update(CameraUniform { pos: Vec2::from_bits(0, 0), size });
    }

    /// The camera as the host sees it.
    pub fn data(&self) -> (data: CameraUniform)
        ensures
            data == self.model().data,
    {
        *self.uniform.data()
    }

    /// Uploads the camera if it changed since the last upload.
    pub fn update_buffers(&mut self, ctx: &mut WgpuContext)
        requires
            old(self).wf(),
        ensures
            final(self).wf(),
            final(self).model() == old(self).model().flushed(),
            final(ctx)@ == old(ctx)@.extended(Seq::empty(), old(self).model().flush_requests()),
    {
        self.uniform.update_buffers(ctx);
        assert(ctx@.resources =~= old(ctx)@.resources + Seq::<ResourceKind>::empty());
    }

    /// Binds the camera at slot 1 of the normal, the lighting and the
    /// diffuse pass.
    pub fn bind(&self, pass: &mut LigthRenderPass)
        ensures
            final(pass)@ == old(pass)@.with_all(Self::bind_commands(self.model())),
    {
        self.uniform.bind(1, &mut pass.normal);
        self.uniform.bind(1, &mut pass.ligth);
        self.uniform.bind(1, &mut pass.diffuse);
        assert(pass.normal@.commands =~= old(pass)@.normal.commands + Self::bind_commands(
            self.model(),
        ));
        assert(pass.ligth@.commands =~= old(pass)@.ligth.commands + Self::bind_commands(
            self.model(),
        ));
        assert(pass.diffuse@.commands =~= old(pass)@.diffuse.commands + Self::bind_commands(
            self.model(),
        ));
    }
}

} // verus!
