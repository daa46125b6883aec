use super::{BindGroup, BufferSlice, RenderPipeline, TextureView};
use vstd::prelude::*;

verus! {

/// Color an attachment is cleared to when its pass begins.
#[derive(Clone, Copy, Debug, PartialEq, Eq, Structural)]
pub enum ClearColor {
    /// The normal pointing straight at the viewer: half red, half green, full blue.
    FlatNormal,
    /// Opaque black.
    Black,
}

/// The attachments of one pass. Every attachment is cleared on load and
/// stored at the end of the pass; a depth attachment is cleared to the far
/// plane.
#[derive(Clone, Copy, Debug, PartialEq, Eq, Structural)]
pub struct PassDescriptor {
    pub color: TextureView,
    pub clear: ClearColor,
    pub depth: Option<TextureView>,
}

/// One recorded call on a render pass.
#[derive(Clone, Copy, Debug, PartialEq, Eq, Structural)]
pub enum Command {
    SetPipeline { pipeline: RenderPipeline },
    SetBindGroup { index: u32, group: BindGroup },
    SetVertexBuffer { slot: u32, slice: BufferSlice },
    /// Draw the vertices `[0, vertices)` for the instances `[0, instances)`.
    Draw { vertices: u32, instances: u32 },
}

/// A render pass being recorded.
pub struct RenderPass {
    descriptor: PassDescriptor,
    commands: Vec<Command>,
}

/// A finished render pass.
#[derive(Clone, Debug, PartialEq, Eq)]
pub struct RecordedPass {
    pub descriptor: PassDescriptor,
    pub commands: Vec<Command>,
}

pub struct RecordedPassView {
    pub descriptor: PassDescriptor,
    pub commands: Seq<Command>,
}

impl RecordedPassView {
    /// The same pass with `more` recorded after what is there.
    pub open spec fn extended(self, more: Seq<Command>) -> RecordedPassView {
        RecordedPassView { commands: self.commands + more, ..self }
    }
}

impl View for RecordedPass {
    type V = RecordedPassView;

    open spec fn view(&self) -> RecordedPassView {
        RecordedPassView { descriptor: self.descriptor, commands: self.commands@ }
    }
}

impl View for RenderPass {
    type V = RecordedPassView;

    closed spec fn view(&self) -> RecordedPassView {
        RecordedPassView { descriptor: self.descriptor, commands: self.commands@ }
    }
}

impl RenderPass {
    /// Begins a pass on the given attachments, with nothing recorded.
    pub fn begin(descriptor: PassDescriptor) -> (pass: RenderPass)
        ensures
            pass@ == (RecordedPassView { descriptor, commands: Seq::empty() }),
    {
        RenderPass { descriptor, commands: Vec::new() }
    }

    pub fn descriptor(&self) -> (descriptor: PassDescriptor)
        ensures
            descriptor == self@.descriptor,
    {
        self.descriptor
    }

    pub fn len(&self) -> (n: usize)
        ensures
            n == self@.commands.len(),
    {
        self.commands.len()
    }

    pub fn command(&self, index: usize) -> (command: Command)
        requires
            index < self@.commands.len(),
        ensures
            command == self@.commands[index as int],
    {
        self.commands[index]
    }

    fn record(&mut self, command: Command)
        ensures
            final(self)@ == (RecordedPassView {
                commands: old(self)@.commands.push(command),
                ..old(self)@
            }),
    {
        self.commands.push(command);
    }

    pub fn set_pipeline(&mut self, pipeline: RenderPipeline)
        ensures
            final(self)@ == (RecordedPassView {
                commands: old(self)@.commands.push(Command::SetPipeline { pipeline }),
                ..old(self)@
            }),
    {
        self.record(Command::SetPipeline { pipeline });
    }

    pub fn set_bind_group(&mut self, index: u32, group: BindGroup)
        ensures
            final(self)@ == (RecordedPassView {
                commands: old(self)@.commands.push(Command::SetBindGroup { index, group }),
                ..old(self)@
            }),
    {
        self.record(Command::SetBindGroup { index, group });
    }

    pub fn set_vertex_buffer(&mut self, slot: u32, slice: BufferSlice)
        ensures
            final(self)@ == (RecordedPassView {
                commands: old(self)@.commands.push(Command::SetVertexBuffer { slot, slice }),
                ..old(self)@
            }),
    {
        self.record(Command::SetVertexBuffer { slot, slice });
    }

    /// Records one instanced draw of `vertices` vertices and `instances` instances.
    pub fn draw(&mut self, vertices: u32, instances: u32)
        ensures
            final(self)@ == (RecordedPassView {
                commands: old(self)@.commands.push(Command::Draw { vertices, instances }),
                ..old(self)@
            }),
    {
        self.record(Command::Draw { vertices, instances });
    }

    /// Ends the pass and hands out what was recorded.
    pub fn finish(self) -> (recorded: RecordedPass)
        ensures
            recorded@ == self@,
    {
        RecordedPass { descriptor: self.descriptor, commands: self.commands }
    }
}

} // verus!
