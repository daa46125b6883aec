use crate::layers::QuadLayer;
use crate::shaders::QuadInstance;
use crate::wgpu_components::VecBufferModel;
use vstd::prelude::*;

verus! {

/// Color of a button at rest.
pub const COLOR: u32 = 0x41000AFF;

/// Color of a button under the pointer.
pub const HOVER_COLOR: u32 = 0x752A00FF;

/// A button: a background quad that tells whether the pointer is on it,
/// and the quads of its label.
pub struct TextButton {
    back_quad: usize,
    text_quads: Vec<usize>,
}

/// The handles `first, first + 1, ..` of `count` quads pushed in a row.
pub open spec fn quads_from(first: nat, count: nat) -> Seq<usize> {
    Seq::new(count, |k: int| (first + k) as usize)
}

/// The color that the background takes.
pub open spec fn back_color(hovered: bool) -> u32 {
    if hovered {
        HOVER_COLOR
    } else {
        COLOR
    }
}

/// The layer after the background of a button or of an input learned
/// whether the pointer is on it: untouched if it has the right color.
pub open spec fn hovered_layer(
    layer: VecBufferModel<QuadInstance>,
    back: usize,
    color: u32,
) -> VecBufferModel<QuadInstance> {
    if layer.data[back as int].color == color {
        layer
    } else {
        layer.touched(back, QuadInstance { color, ..layer.data[back as int] })
    }
}

/// Pushes the quads of `text` onto `layer` and returns their handles.
pub fn push_quads(layer: &mut QuadLayer, text: &Vec<QuadInstance>) -> (handles: Vec<usize>)
    requires
        old(layer).buffer.wf(),
    ensures
        final(layer).buffer.wf(),
        final(layer).buffer.model() == old(layer).buffer.model().pushed_all(text@),
        final(layer).buffer.model().data == old(layer).buffer.model().data + text@,
        handles@ == quads_from(old(layer).buffer.model().data.len(), text@.len()),
{
    let ghost before = layer.buffer.model();
    let mut handles: Vec<usize> = Vec::new();
    let mut i: usize = 0;
    assert(text@.take(0) =~= Seq::empty());
    assert(before.data + text@.take(0) =~= before.data);
    while i < text.len()
        invariant
            i <= text@.len(),
            layer.buffer.wf(),
            layer.buffer.model() == before.pushed_all(text@.take(i as int)),
            layer.buffer.model().data == before.data + text@.take(i as int),
            handles@ =~= quads_from(before.data.len(), i as nat),
        decreases text@.len() - i,
    {
        let handle = layer.buffer.push(text[i]);
        handles.push(handle);
        proof {
            assert(text@.take(i + 1).drop_last() =~= text@.take(i as int));
            assert(text@.take(i + 1).last() == text@[i as int]);
            assert(before.data + text@.take(i + 1) =~= (before.data + text@.take(i as int)).push(
                text@[i as int],
            ));
        }
        i += 1;
    }
    assert(text@.take(text@.len() as int) =~= text@);
    handles
}

impl TextButton {
    /// Handle of the background quad.
    pub closed spec fn back(&self) -> usize {
        self.back_quad
    }

    /// Handles of the quads of the label.
    pub closed spec fn text(&self) -> Seq<usize> {
        self.text_quads@
    }

    /// Puts a button onto `layer`: the background `back` in the color of a
    /// button at rest, then the quads of the label.
    pub fn new(layer: &mut QuadLayer, back: QuadInstance, text: &Vec<QuadInstance>) -> (button: Self)
        requires
            old(layer).buffer.wf(),
        ensures
            final(layer).buffer.wf(),
            button.back() == old(layer).buffer.model().data.len(),
            button.text() == quads_from(old(layer).buffer.model().data.len() + 1, text@.len()),
            final(layer).buffer.model() == old(layer).buffer.model().pushed(
                QuadInstance { color: COLOR, ..back },
            ).pushed_all(text@),
            final(layer).buffer.model().data == old(layer).buffer.model().data.push(
                QuadInstance { color: COLOR, ..back },
            ) + text@,
    {
        let back_quad = layer.buffer.push(
            QuadInstance {
                color: COLOR,
                angle: back.angle,
                pos: back.pos,
                size: back.size,
                tex_pos: back.tex_pos,
                tex_size: back.tex_size,
            },
        );
        let text_quads = push_quads(layer, text);
        Self { back_quad, text_quads }
    }

    /// Tells the button whether the pointer is on it. The background
    /// changes its color if it has to, and is not touched if not.
    pub fn mouse_moved(&self, hovered: bool, layer: &mut QuadLayer)
        requires
            old(layer).buffer.wf(),
            self.back() < old(layer).buffer.model().data.len(),
        ensures
            final(layer).buffer.wf(),
            final(layer).buffer.model() == hovered_layer(
                old(layer).buffer.model(),
                self.back(),
                back_color(hovered),
            ),
    {
        set_back_color(layer, self.back_quad, if hovered {
            HOVER_COLOR
        } else {
            COLOR
        });
    }
}

/// Gives the quad `back` of `layer` the color `color`, without touching
/// the layer if the quad has it already.
pub fn set_back_color(layer: &mut QuadLayer, back: usize, color: u32)
    requires
        old(layer).buffer.wf(),
        back < old(layer).buffer.model().data.len(),
    ensures
        final(layer).buffer.wf(),
        final(layer).buffer.model() == hovered_layer(old(layer).buffer.model(), back, color),
{
    let quad = layer.buffer.get_ref(back);
    if quad.color != color {
        let quad = layer.buffer.get_mut(back);
        quad.color = color;
    }
}

} // verus!
