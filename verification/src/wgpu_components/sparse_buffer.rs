use vstd::multiset::Multiset;
use vstd::prelude::*;

verus! {

/// An item that can be switched off in place, so that its slot can stay
/// where it is until it is used again.
pub trait Disable {
    fn disable(&mut self);
}

/// The mathematical state of a [`SparseVec`].
pub struct SparseVecModel<T> {
    /// All slots, used or not.
    pub data: Seq<T>,
    /// The slots that were given up, each as often as it was given up.
    pub empty_slots: Multiset<usize>,
}

impl<T> SparseVecModel<T> {
    /// Every slot that was given up exists.
    pub open spec fn wf(self) -> bool {
        forall|slot: usize| self.empty_slots.count(slot) > 0 ==> slot < self.data.len()
    }

    /// `slot` is the smallest slot that was given up.
    pub open spec fn is_first_empty(self, slot: usize) -> bool {
        &&& self.empty_slots.count(slot) > 0
        &&& forall|other: usize| self.empty_slots.count(other) > 0 ==> slot <= other
    }
}

/// A vector whose indices stay valid: a removed item gives its slot up,
/// and the smallest slot given up is the first to be filled again.
pub struct SparseVec<T: Disable> {
    data: Vec<T>,
    empty_slots: Vec<usize>,
}

impl<T: Disable> SparseVec<T> {
    pub closed spec fn model(&self) -> SparseVecModel<T> {
        SparseVecModel { data: self.data@, empty_slots: self.empty_slots@.to_multiset() }
    }

    pub open spec fn wf(&self) -> bool {
        self.model().wf()
    }

    pub fn new() -> (sparse: Self)
        ensures
            sparse.wf(),
            sparse.model().data == Seq::<T>::empty(),
            sparse.model().empty_slots == Multiset::<usize>::empty(),
    {
        let sparse = Self { data: Vec::new(), empty_slots: Vec::new() };
        proof {
            broadcast use vstd::seq_lib::group_to_multiset_ensures;
            broadcast use vstd::multiset::group_multiset_axioms;

            assert(sparse.empty_slots@.to_multiset() =~= Multiset::<usize>::empty());
        }
        sparse
    }

    pub fn len(&self) -> (len: usize)
        ensures
            len == self.model().data.len(),
    {
        self.data.len()
    }

    pub fn get(&self, index: usize) -> (item: &T)
        requires
            index < self.model().data.len(),
        ensures
            *item == self.model().data[index as int],
    {
        &self.data[index]
    }

    /// Position in `empty_slots` of its smallest member.
    fn first_empty(&self) -> (at: usize)
        requires
            self.empty_slots@.len() > 0,
        ensures
            at < self.empty_slots@.len(),
            self.model().is_first_empty(self.empty_slots@[at as int]),
    {
        let mut at: usize = 0;
        let mut i: usize = 1;
        while i < self.empty_slots.len()
            invariant
                at < i <= self.empty_slots@.len(),
                forall|j: int| 0 <= j < i ==> self.empty_slots@[at as int] <= self.empty_slots@[j],
            decreases self.empty_slots@.len() - i,
        {
            if self.empty_slots[i] < self.empty_slots[at] {
                at = i;
            }
            i += 1;
        }
        proof {
            broadcast use vstd::seq_lib::group_to_multiset_ensures;
            broadcast use vstd::multiset::group_multiset_axioms;

            let slots = self.empty_slots@;
            assert(slots.contains(slots[at as int]));
            assert forall|other: usize| slots.to_multiset().count(other) > 0 implies slots[at as int]
                <= other by {
                assert(slots.contains(other));
                let j = choose|j: int| 0 <= j < slots.len() && slots[j] == other;
                assert(slots[at as int] <= slots[j]);
            }
        }
        at
    }

    /// Stores `item` in the smallest slot that was given up, or in a new
    /// slot at the end if none was. Returns the index of the item.
    pub fn push(&mut self, item: T) -> (index: usize)
        requires
            old(self).wf(),
        ensures
            final(self).wf(),
            old(self).model().empty_slots.len() == 0 ==> {
                &&& index == old(self).model().data.len()
                &&& final(self).model().data == old(self).model().data.push(item)
                &&& final(self).model().empty_slots == old(self).model().empty_slots
            },
            old(self).model().empty_slots.len() > 0 ==> {
                &&& old(self).model().is_first_empty(index)
                &&& final(self).model().data == old(self).model().data.update(index as int, item)
                &&& final(self).model().empty_slots == old(self).model().empty_slots.remove(index)
            },
    {
        proof {
            broadcast use vstd::seq_lib::group_to_multiset_ensures;
            broadcast use vstd::multiset::group_multiset_axioms;

        }
        if self.empty_slots.len() > 0 {
            let at = self.first_empty();
            let slot = self.empty_slots.remove(at);
            proof {
                assert(old(self).empty_slots@.contains(slot));
                assert(self.empty_slots@ == old(self).empty_slots@.remove(at as int));
                assert forall|other: usize|
                    self.empty_slots@.to_multiset().count(other) > 0 implies other
                    < self.data@.len() by {
                    assert(old(self).empty_slots@.to_multiset().count(other) > 0);
                }
            }
            self.data[slot] = item;
            slot
        } else {
            self.data.push(item);
            self.data.len() - 1
        }
    }

    /// Switches the item at `index` off and gives its slot up. The other
    /// items stay as they are.
    pub fn remove(&mut self, index: usize)
        requires
            old(self).wf(),
            index < old(self).model().data.len(),
        ensures
            final(self).wf(),
            final(self).model().data.len() == old(self).model().data.len(),
            forall|i: int|
                0 <= i < old(self).model().data.len() && i != index ==> final(self).model().data[i]
                    == old(self).model().data[i],
            final(self).model().empty_slots == old(self).model().empty_slots.insert(index),
    {
        proof {
            broadcast use vstd::seq_lib::group_to_multiset_ensures;
            broadcast use vstd::multiset::group_multiset_axioms;

        }
        assert(self.model().empty_slots == self.empty_slots@.to_multiset());
        assert(forall|slot: usize|
            self.empty_slots@.to_multiset().count(slot) > 0 ==> slot < self.data@.len());
        disable_at(&mut self.data, index);
        self.empty_slots.push(index);
        proof {
            assert forall|other: usize|
                self.empty_slots@.to_multiset().count(other) > 0 implies other
                < self.data@.len() by {
                if other != index {
                    assert(old(self).empty_slots@.to_multiset().count(other) > 0);
                }
            }
        }
    }
}

/// Switches the item at `index` off; the other items stay as they are.
fn disable_at<T: Disable>(data: &mut Vec<T>, index: usize)
    requires
        index < old(data)@.len(),
    ensures
        final(data)@.len() == old(data)@.len(),
        forall|i: int| 0 <= i < old(data)@.len() && i != index ==> final(data)@[i] == old(data)@[i],
{
    data[index].disable();
}

} // verus!
