use super::{closed_loop, shadow_from_shape};
use crate::math::Vec2;
use crate::scenes::{GameLayers, GameLayersModel};
use crate::shaders::{QuadInstance, ShadowInstance};
use vstd::prelude::*;

verus! {

/// An opaque block: one quad in the block layer, and the segments of its
/// outline in the light layer.
pub struct BlockSq2 {
    quad_id: usize,
    shadow_id: Vec<usize>,
}

/// The segments after `values[k]` was stored at handle `handles[k]`, for
/// each `k` in turn.
pub open spec fn moved_segments(
    segments: Seq<ShadowInstance>,
    handles: Seq<usize>,
    values: Seq<ShadowInstance>,
) -> Seq<ShadowInstance>
    decreases handles.len(),
{
    if handles.len() == 0 || values.len() == 0 {
        segments
    } else {
        moved_segments(segments, handles.drop_last(), values.drop_last()).update(
            handles.last() as int,
            values.last(),
        )
    }
}

/// The handles `first, first + 1, ..` of `count` segments added in a row.
pub open spec fn handles_from(first: nat, count: nat) -> Seq<usize> {
    Seq::new(count, |k: int| (first + k) as usize)
}

impl BlockSq2 {
    /// Handle of the quad in the block layer.
    pub closed spec fn quad(&self) -> usize {
        self.quad_id
    }

    /// Handles of the outline segments in the light layer, in outline order.
    pub closed spec fn shadows(&self) -> Seq<usize> {
        self.shadow_id@
    }

    /// All handles of the block exist in `layers`.
    pub open spec fn placed_in(&self, layers: GameLayersModel) -> bool {
        &&& self.quad() < layers.blocks.data.len()
        &&& forall|k: int|
            0 <= k < self.shadows().len() ==> (#[trigger] self.shadows()[k])
                < layers.ligths.segments().len()
    }

    /// Puts a block into `layers`: `quad` goes to the block layer, and the
    /// closed outline through `outline` to the light layer.
    pub fn new(layers: &mut GameLayers, quad: QuadInstance, outline: &Vec<Vec2>) -> (block: Self)
        requires
            old(layers).blocks.buffer.wf(),
            old(layers).ligths.wf(),
            outline@.len() > 0,
        ensures
            final(layers).blocks.buffer.wf(),
            final(layers).ligths.wf(),
            block.placed_in(final(layers).model()),
            block.quad() == old(layers).model().blocks.data.len(),
            block.shadows() == handles_from(
                old(layers).model().ligths.segments().len(),
                outline@.len(),
            ),
            final(layers).model() == (GameLayersModel {
                blocks: old(layers).model().blocks.pushed(quad),
                ligths: old(layers).model().ligths.with_shadows(closed_loop(outline@)),
                ..old(layers).model()
            }),
            final(layers).model().ligths.segments() == old(layers).model().ligths.segments()
                + closed_loop(outline@),
    {
        let quad_id = layers.blocks.buffer.push(quad);
        let shadows = shadow_from_shape(outline);
        let ghost before = old(layers).model().ligths;
        let ghost first = before.segments().len();
        let mut shadow_id: Vec<usize> = Vec::new();
        let mut i: usize = 0;
        assert(shadows@.take(0) =~= Seq::empty());
        assert(before.segments() + shadows@.take(0) =~= before.segments());
        while i < shadows.len()
            invariant
                i <= shadows@.len(),
                first == before.segments().len(),
                layers.ligths.wf(),
                layers.ligths.model() == before.with_shadows(shadows@.take(i as int)),
                layers.ligths.model().segments() == before.segments() + shadows@.take(i as int),
                shadow_id@ =~= handles_from(first, i as nat),
                layers.camera == old(layers).camera,
                layers.background == old(layers).background,
                layers.bottom_particles == old(layers).bottom_particles,
                layers.players == old(layers).players,
                layers.top_particles == old(layers).top_particles,
                layers.blocks.buffer.wf(),
                layers.blocks.buffer.model() == old(layers).model().blocks.pushed(quad),
            decreases shadows@.len() - i,
        {
            let ghost count = layers.ligths.model().segments().len();
            assert(count == first + shadows@.take(i as int).len());
            let handle = layers.ligths.add_shadow(shadows[i]);
            shadow_id.push(handle);
            proof {
                assert(handle == first + i);
                assert(shadow_id@ =~= handles_from(first, (i + 1) as nat));
                assert(shadows@.take(i + 1).drop_last() =~= shadows@.take(i as int));
                assert(shadows@.take(i + 1).last() == shadows@[i as int]);
                assert(before.segments() + shadows@.take(i + 1) =~= (before.segments()
                    + shadows@.take(i as int)).push(shadows@[i as int]));
            }
            i += 1;
        }
        assert(shadows@.take(shadows@.len() as int) =~= shadows@);
        BlockSq2 { quad_id, shadow_id }
    }

    /// Moves the block: the quad goes to `pos`, and the outline segments
    /// are replaced by the closed outline through `outline`.
    pub fn set_pos(&self, layers: &mut GameLayers, pos: Vec2, outline: &Vec<Vec2>)
        requires
            old(layers).blocks.buffer.wf(),
            old(layers).ligths.wf(),
            self.placed_in(old(layers).model()),
            outline@.len() == self.shadows().len(),
            outline@.len() > 0,
        ensures
            final(layers).blocks.buffer.wf(),
            final(layers).ligths.wf(),
            self.placed_in(final(layers).model()),
            final(layers).model().blocks.data == old(layers).model().blocks.data.update(
                self.quad() as int,
                QuadInstance { pos, ..old(layers).model().blocks.data[self.quad() as int] },
            ),
            final(layers).model().blocks.dirty == old(layers).model().blocks.dirty.after_touch(
                self.quad(),
            ),
            final(layers).model().ligths.segments() == moved_segments(
                old(layers).model().ligths.segments(),
                self.shadows(),
                closed_loop(outline@),
            ),
            final(layers).model().ligths.ligths == old(layers).model().ligths.ligths,
            final(layers).model().camera == old(layers).model().camera,
            final(layers).model().background == old(layers).model().background,
            final(layers).model().bottom_particles == old(layers).model().bottom_particles,
            final(layers).model().players == old(layers).model().players,
            final(layers).model().top_particles == old(layers).model().top_particles,
    {
        let shadows = shadow_from_shape(outline);
        let ghost before = old(layers).model().ligths;
        let mut i: usize = 0;
        assert(self.shadows().take(0) =~= Seq::empty());
        while i < self.shadow_id.len()
            invariant
                i <= self.shadows().len(),
                self.shadows() == self.shadow_id@,
                shadows@.len() == self.shadows().len(),
                layers.ligths.wf(),
                layers.ligths.model().segments() == moved_segments(
                    before.segments(),
                    self.shadows().take(i as int),
                    shadows@.take(i as int),
                ),
                layers.ligths.model().segments().len() == before.segments().len(),
                layers.ligths.model().ligths == before.ligths,
                forall|k: int|
                    0 <= k < self.shadows().len() ==> (#[trigger] self.shadows()[k])
                        < before.segments().len(),
                layers.camera == old(layers).camera,
                layers.background == old(layers).background,
                layers.bottom_particles == old(layers).bottom_particles,
                layers.players == old(layers).players,
                layers.top_particles == old(layers).top_particles,
                layers.blocks == old(layers).blocks,
            decreases self.shadows().len() - i,
        {
            let handle = self.shadow_id[i];
            assert(self.shadows()[i as int] < before.segments().len());
            *layers.ligths.get_shadow_mut(handle) = shadows[i];
            proof {
                assert(self.shadows().take(i + 1).drop_last() =~= self.shadows().take(i as int));
                assert(shadows@.take(i + 1).drop_last() =~= shadows@.take(i as int));
                assert(self.shadows().take(i + 1).last() == handle);
                assert(shadows@.take(i + 1).last() == shadows@[i as int]);
            }
            i += 1;
        }
        assert(self.shadows().take(i as int) =~= self.shadows());
        assert(shadows@.take(i as int) =~= shadows@);
        layers.blocks.buffer.get_mut(self.quad_id).pos = pos;
    }
}

} // verus!
