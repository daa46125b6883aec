use super::text_button::{hovered_layer, quads_from, set_back_color, HOVER_COLOR};
use crate::layers::QuadLayer;
use crate::shaders::QuadInstance;
use crate::wgpu_components::VecBufferModel;
use vstd::prelude::*;
use vstd::string::StringExecFns;

verus! {

/// Color of the background of an input at rest.
pub const COLOR: u32 = 0x2B1100FF;

/// Color of the placeholder.
pub const PLACEHOLDER_COLOR: u32 = 0x888888FF;

/// Color of the text that was typed.
pub const TEXT_COLOR: u32 = 0;

/// A line of text that the user types into. While it is empty it shows
/// its placeholder.
pub struct TextInput {
    back_quad: usize,
    text_quads: Vec<usize>,
    text: String,
    placeholder: String,
}

/// The quad `quad` in the color `color`.
pub open spec fn tinted(quad: QuadInstance, color: u32) -> QuadInstance {
    QuadInstance { color, ..quad }
}

/// The quad `quad` without width, so that it is not seen.
pub open spec fn hidden(quad: QuadInstance) -> QuadInstance {
    QuadInstance { size: crate::math::Vec2 { x: 0, y: quad.size.y }, ..quad }
}

/// The layer after the quads at `slots` were hidden, one after the other.
pub open spec fn hidden_all(layer: VecBufferModel<QuadInstance>, slots: Seq<usize>) -> VecBufferModel<
    QuadInstance,
>
    decreases slots.len(),
{
    if slots.len() == 0 {
        layer
    } else {
        let before = hidden_all(layer, slots.drop_last());
        before.touched(slots.last(), hidden(before.data[slots.last() as int]))
    }
}

/// The quads of `quads`, each in the color `color`.
pub open spec fn tinted_all(quads: Seq<QuadInstance>, color: u32) -> Seq<QuadInstance> {
    quads.map_values(|q: QuadInstance| tinted(q, color))
}

impl TextInput {
    /// Handle of the background quad.
    pub closed spec fn back(&self) -> usize {
        self.back_quad
    }

    /// Handles of the quads that show the text, in reading order.
    pub closed spec fn slots(&self) -> Seq<usize> {
        self.text_quads@
    }

    /// What was typed so far.
    pub closed spec fn text(&self) -> Seq<char> {
        self.text@
    }

    pub closed spec fn placeholder(&self) -> Seq<char> {
        self.placeholder@
    }

    /// The text on display: what was typed, or the placeholder if nothing was.
    pub open spec fn shown(&self) -> Seq<char> {
        if self.text().len() == 0 {
            self.placeholder()
        } else {
            self.text()
        }
    }

    /// The color of the text on display.
    pub open spec fn shown_color(&self) -> u32 {
        if self.text().len() == 0 {
            PLACEHOLDER_COLOR
        } else {
            TEXT_COLOR
        }
    }

    /// All handles of the input exist in `layer`.
    pub open spec fn placed_in(&self, layer: VecBufferModel<QuadInstance>) -> bool {
        &&& self.back() < layer.data.len()
        &&& forall|k: int|
            0 <= k < self.slots().len() ==> (#[trigger] self.slots()[k]) < layer.data.len()
    }

    /// Puts an empty input onto `layer`: only its background `back`, in
    /// the color of an input at rest. Its text is laid out by
    /// [`TextInput::update_text_quads`].
    pub fn new(layer: &mut QuadLayer, back: QuadInstance, placeholder: &str) -> (input: Self)
        requires
            old(layer).buffer.wf(),
        ensures
            final(layer).buffer.wf(),
            input.placed_in(final(layer).buffer.model()),
            input.back() == old(layer).buffer.model().data.len(),
            input.slots() == Seq::<usize>::empty(),
            input.text() == Seq::<char>::empty(),
            input.placeholder() == placeholder@,
            final(layer).buffer.model() == old(layer).buffer.model().pushed(tinted(back, COLOR)),
    {
        let back_quad = layer.buffer.push(
            QuadInstance {
                color: COLOR,
                angle: back.angle,
                pos: back.pos,
                size: back.size,
                tex_pos: back.tex_pos,
                tex_size: back.tex_size,
            },
        );
        Self {
            back_quad,
            text_quads: Vec::new(),
            text: String::new(),
            placeholder: String::from_str(placeholder),
        }
    }

    /// The text to lay out, and the color to show it in.
    pub fn shown_text(&self) -> (shown: (&str, u32))
        ensures
            shown.0@ == self.shown(),
            shown.1 == self.shown_color(),
    {
        if self.text.as_str().unicode_len() == 0 {
            (self.placeholder.as_str(), PLACEHOLDER_COLOR)
        } else {
            (self.text.as_str(), TEXT_COLOR)
        }
    }

    /// Appends what the user typed.
    pub fn typed_text(&mut self, text: &str)
        ensures
            final(self).text() == old(self).text() + text@,
            final(self).placeholder() == old(self).placeholder(),
            final(self).back() == old(self).back(),
            final(self).slots() == old(self).slots(),
    {
        self.text.append(text);
    }

    /// Shows `quads`, the layout of the text on display, in the color of
    /// that text: the quads that the input has are used again in reading
    /// order, new ones are pushed where they do not suffice, and those
    /// left over are hidden.
    pub fn update_text_quads(&mut self, layer: &mut QuadLayer, quads: &Vec<QuadInstance>)
        requires
            old(layer).buffer.wf(),
            old(self).placed_in(old(layer).buffer.model()),
        ensures
            final(layer).buffer.wf(),
            final(self).placed_in(final(layer).buffer.model()),
            final(self).text() == old(self).text(),
            final(self).placeholder() == old(self).placeholder(),
            final(self).back() == old(self).back(),
            quads@.len() <= old(self).slots().len() ==> {
                &&& final(self).slots() == old(self).slots()
                &&& final(layer).buffer.model() == hidden_all(
                    old(layer).buffer.model().stored_all(
                        old(self).slots().take(quads@.len() as int),
                        tinted_all(quads@, old(self).shown_color()),
                    ),
                    old(self).slots().skip(quads@.len() as int),
                )
            },
            quads@.len() > old(self).slots().len() ==> {
                &&& final(self).slots() == old(self).slots() + quads_from(
                    old(layer).buffer.model().data.len(),
                    (quads@.len() - old(self).slots().len()) as nat,
                )
                &&& final(layer).buffer.model() == old(layer).buffer.model().stored_all(
                    old(self).slots(),
                    tinted_all(quads@, old(self).shown_color()).take(
                        old(self).slots().len() as int,
                    ),
                ).pushed_all(
                    tinted_all(quads@, old(self).shown_color()).skip(
                        old(self).slots().len() as int,
                    ),
                )
            },
    {
        let color = if self.text.as_str().unicode_len() == 0 {
            PLACEHOLDER_COLOR
        } else {
            TEXT_COLOR
        };
        let ghost before = layer.buffer.model();
        let ghost slots = self.text_quads@;
        let ghost wanted = tinted_all(quads@, color);
        let reused = if quads.len() < self.text_quads.len() {
            quads.len()
        } else {
            self.text_quads.len()
        };

        // The quads that the input has are used again.
        let mut i: usize = 0;
        assert(slots.take(0) =~= Seq::empty());
        while i < reused
            invariant
                i <= reused,
                reused <= quads@.len(),
                reused <= slots.len(),
                self.text_quads@ == slots,
                wanted == tinted_all(quads@, color),
                layer.buffer.wf(),
                layer.buffer.model() == before.stored_all(
                    slots.take(i as int),
                    wanted.take(i as int),
                ),
                layer.buffer.model().data.len() == before.data.len(),
                forall|k: int| 0 <= k < slots.len() ==> (#[trigger] slots[k]) < before.data.len(),
            decreases reused - i,
        {
            let slot = self.text_quads[i];
            let quad = quads[i];
            assert(slots[i as int] < before.data.len());
            *layer.buffer.get_mut(slot) = QuadInstance {
                color,
                angle: quad.angle,
                pos: quad.pos,
                size: quad.size,
                tex_pos: quad.tex_pos,
                tex_size: quad.tex_size,
            };
            proof {
                assert(slots.take(i + 1).drop_last() =~= slots.take(i as int));
                assert(wanted.take(i + 1).drop_last() =~= wanted.take(i as int));
                assert(slots.take(i + 1).last() == slot);
                assert(wanted.take(i + 1).last() == tinted(quad, color));
            }
            i += 1;
        }
        let ghost stored = layer.buffer.model();

        if quads.len() > self.text_quads.len() {
            // New quads are pushed where they do not suffice.
            assert(slots.take(reused as int) =~= slots);
            let mut j: usize = reused;
            assert(wanted.skip(reused as int).take(0) =~= Seq::empty());
            while j < quads.len()
                invariant
                    reused <= j <= quads@.len(),
                    reused == slots.len(),
                    wanted == tinted_all(quads@, color),
                    layer.buffer.wf(),
                    layer.buffer.model() == stored.pushed_all(
                        wanted.skip(reused as int).take(j - reused),
                    ),
                    layer.buffer.model().data.len() == before.data.len() + (j - reused),
                    stored.data.len() == before.data.len(),
                    self.text_quads@ =~= slots + quads_from(
                        before.data.len(),
                        (j - reused) as nat,
                    ),
                    self.text@ == old(self).text@,
                    self.placeholder@ == old(self).placeholder@,
                    self.back_quad == old(self).back_quad,
                    forall|k: int|
                        0 <= k < slots.len() ==> (#[trigger] slots[k]) < before.data.len(),
                decreases quads@.len() - j,
            {
                let quad = quads[j];
                let handle = layer.buffer.push(
                    QuadInstance {
                        color,
                        angle: quad.angle,
                        pos: quad.pos,
                        size: quad.size,
                        tex_pos: quad.tex_pos,
                        tex_size: quad.tex_size,
                    },
                );
                self.text_quads.push(handle);
                proof {
                    let rest = wanted.skip(reused as int);
                    assert(rest.take(j - reused + 1).drop_last() =~= rest.take(j - reused));
                    assert(rest.take(j - reused + 1).last() == tinted(quad, color));
                }
                j += 1;
            }
            proof {
                let rest = wanted.skip(reused as int);
                assert(rest.take(quads@.len() - reused) =~= rest);
                assert(wanted.take(reused as int) =~= wanted.take(slots.len() as int));
                assert forall|k: int| 0 <= k < self.text_quads@.len() implies (
                #[trigger] self.text_quads@[k]) < layer.buffer.model().data.len() by {
                    if k < slots.len() {
                        assert(slots[k] < before.data.len());
                    }
                }
            }
        } else {
            // The quads that are left over are hidden.
            let ghost rest = slots.skip(reused as int);
            let mut j: usize = reused;
            assert(rest.take(0) =~= Seq::empty());
            assert(wanted.take(reused as int) =~= wanted);
            while j < self.text_quads.len()
                invariant
                    reused <= j <= slots.len(),
                    self.text_quads@ == slots,
                    rest == slots.skip(reused as int),
                    layer.buffer.wf(),
                    layer.buffer.model() == hidden_all(stored, rest.take(j - reused)),
                    layer.buffer.model().data.len() == before.data.len(),
                    forall|k: int|
                        0 <= k < slots.len() ==> (#[trigger] slots[k]) < before.data.len(),
                decreases slots.len() - j,
            {
                let slot = self.text_quads[j];
                assert(slots[j as int] < before.data.len());
                layer.buffer.get_mut(slot).size.x = 0;
                proof {
                    assert(rest.take(j - reused + 1).drop_last() =~= rest.take(j - reused));
                    assert(rest.take(j - reused + 1).last() == slot);
                }
                j += 1;
            }
            assert(rest.take(slots.len() - reused) =~= rest);
        }
    }

    /// Tells the input whether the pointer is on it. The background
    /// changes its color if it has to, and is not touched if not.
    pub fn mouse_moved(&self, hovered: bool, layer: &mut QuadLayer)
        requires
            old(layer).buffer.wf(),
            self.back() < old(layer).buffer.model().data.len(),
        ensures
            final(layer).buffer.wf(),
            final(layer).buffer.model() == hovered_layer(
                old(layer).buffer.model(),
                self.back(),
                if hovered {
                    HOVER_COLOR
                } else {
                    COLOR
                },
            ),
    {
        set_back_color(layer, self.back_quad, if hovered {
            HOVER_COLOR
        } else {
            COLOR
        });
    }
}

} // verus!
