pub mod block;
pub mod text_button;
pub mod text_input;

pub use block::BlockSq2;
pub use text_button::TextButton;
pub use text_input::TextInput;

use crate::math::Vec2;
use crate::shaders::ShadowInstance;
use vstd::prelude::*;

verus! {

/// The boundary of a polygon as directed segments: one from each corner
/// to the next, and one from the last corner back to the first.
pub open spec fn closed_loop(shape: Seq<Vec2>) -> Seq<ShadowInstance> {
    Seq::new(
        shape.len(),
        |i: int| ShadowInstance { a: shape[i], b: shape[(i + 1) % (shape.len() as int)] },
    )
}

/// The segments that cast the shadow of the polygon with corners `shape`.
pub fn shadow_from_shape(shape: &Vec<Vec2>) -> (shadows: Vec<ShadowInstance>)
    requires
        shape@.len() > 0,
    ensures
        shadows@ == closed_loop(shape@),
{
    let mut shadows: Vec<ShadowInstance> = Vec::new();
    let last = shape.len() - 1;
    let mut i: usize = 0;
    while i < last
        invariant
            i <= last,
            last == shape@.len() - 1,
            shadows@.len() == i,
            forall|k: int| 0 <= k < i ==> shadows@[k] == closed_loop(shape@)[k],
        decreases last - i,
    {
        assert((i + 1) % (shape@.len() as int) == i + 1) by {
            vstd::arithmetic::div_mod::lemma_small_mod((i + 1) as nat, shape@.len());
        }
        shadows.push(ShadowInstance { a: shape[i], b: shape[i + 1] });
        i += 1;
    }
    assert((last + 1) % (shape@.len() as int) == 0) by {
        vstd::arithmetic::div_mod::lemma_mod_self_0(shape@.len() as int);
    }
    shadows.push(ShadowInstance { a: shape[last], b: shape[0] });
    assert(shadows@ =~= closed_loop(shape@));
    shadows
}

} // verus!
