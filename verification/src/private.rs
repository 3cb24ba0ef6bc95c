//! The parts of a small vector, and the steps that change one part at a time.

use vstd::prelude::*;

use crate::model::Model;

verus! {

/// Access to the parts of a small vector: the stored length, the stored capacity, the inline
/// region and the heap block. A step changes the part that it names and leaves the others, so it
/// can leave the parts at odds with each other (see [`SmallVecState::wf`]); the operations of
/// [`SmallVec`](crate::SmallVec) put the steps together.
pub trait SmallVecPrivate<T> {
    /// The stored length.
    spec fn raw_len(&self) -> usize;

    /// The stored capacity.
    spec fn raw_cap(&self) -> usize;

    /// The number of elements that the inline region is made for.
    spec fn inline_slots() -> usize;

    /// The elements that are in the inline region.
    spec fn data_view(&self) -> Seq<T>;

    /// The elements that are in the heap block.
    spec fn heap_view(&self) -> Seq<T>;

    /// Stores the length.
    fn set_len(&mut self, new_len: usize)
        ensures
            final(self).raw_len() == new_len,
            final(self).raw_cap() == old(self).raw_cap(),
            final(self).data_view() == old(self).data_view(),
            final(self).heap_view() == old(self).heap_view(),
    ;

    /// Stores the capacity.
    fn set_cap(&mut self, new_cap: usize)
        ensures
            final(self).raw_len() == old(self).raw_len(),
            final(self).raw_cap() == new_cap,
            final(self).data_view() == old(self).data_view(),
            final(self).heap_view() == old(self).heap_view(),
    ;

    /// The elements that are in the inline region, from position `index` on: none, if `index` lies
    /// behind them.
    fn data(&self, index: usize) -> (slots: &[T])
        requires
            index < Self::inline_slots() || index == 0,
        ensures
            slots@ == self.data_view().skip(
                crate::model::reach(self.data_view(), index as int),
            ),
            index <= self.data_view().len() ==> slots@ == self.data_view().skip(index as int),
            index > self.data_view().len() ==> slots@.len() == 0,
    ;

    /// The elements that are in the inline region, from position `index` on, to be read and
    /// written: none, if `index` lies behind them.
    fn mut_data(&mut self, index: usize) -> (slots: &mut [T])
        requires
            index < Self::inline_slots() || index == 0,
        ensures
            slots@ == old(self).data_view().skip(
                crate::model::reach(old(self).data_view(), index as int),
            ),
            index <= old(self).data_view().len() ==> {
                &&& slots@ == old(self).data_view().skip(index as int)
                &&& final(self).data_view() == old(self).data_view().take(index as int)
                    + final(slots)@
            },
            index > old(self).data_view().len() ==> {
                &&& slots@.len() == 0
                &&& final(self).data_view() == old(self).data_view()
            },
            final(slots)@.len() == slots@.len(),
            final(self).raw_len() == old(self).raw_len(),
            final(self).raw_cap() == old(self).raw_cap(),
            final(self).data_view() == old(self).data_view().take(
                crate::model::reach(old(self).data_view(), index as int),
            ) + final(slots)@,
            final(self).heap_view() == old(self).heap_view(),
    ;

    /// The inline region, to be read, written, filled and emptied.
    fn mut_region(&mut self) -> (region: &mut Vec<T>)
        ensures
            region@ == old(self).data_view(),
            final(self).raw_len() == old(self).raw_len(),
            final(self).raw_cap() == old(self).raw_cap(),
            final(self).data_view() == final(region)@,
            final(self).heap_view() == old(self).heap_view(),
    ;

    /// The heap block.
    fn ptr(&self) -> (block: &Vec<T>)
        ensures
            block@ == self.heap_view(),
    ;

    /// The heap block, to be read, written, filled and emptied.
    fn mut_ptr(&mut self) -> (block: &mut Vec<T>)
        ensures
            block@ == old(self).heap_view(),
            final(self).raw_len() == old(self).raw_len(),
            final(self).raw_cap() == old(self).raw_cap(),
            final(self).data_view() == old(self).data_view(),
            final(self).heap_view() == final(block)@,
    ;

    /// Puts another block in the place of the heap block.
    fn set_ptr(&mut self, new_ptr: Vec<T>)
        ensures
            final(self).raw_len() == old(self).raw_len(),
            final(self).raw_cap() == old(self).raw_cap(),
            final(self).data_view() == old(self).data_view(),
            final(self).heap_view() == new_ptr@,
    ;
}

/// What the parts of a small vector amount to.
pub trait SmallVecState<T> {
    /// The heap block is the place of the elements; otherwise the inline region is.
    spec fn is_spilled(&self) -> bool;

    /// The elements, from the first to the last.
    spec fn elems(&self) -> Seq<T>;

    /// The mathematical model.
    spec fn model(&self) -> Model<T>;

    /// The parts agree: all the elements are in one place, which the capacity tells, the stored
    /// length is their number, and there is room for them.
    spec fn wf(&self) -> bool;
}

impl<T, V: SmallVecPrivate<T> + ?Sized> SmallVecState<T> for V {
    open spec fn is_spilled(&self) -> bool {
        self.raw_cap() > V::inline_slots()
    }

    open spec fn elems(&self) -> Seq<T> {
        if self.is_spilled() {
            self.heap_view()
        } else {
            self.data_view()
        }
    }

    open spec fn model(&self) -> Model<T> {
        Model {
            elems: self.elems(),
            cap: self.raw_cap() as nat,
            inline_size: V::inline_slots() as nat,
        }
    }

    open spec fn wf(&self) -> bool {
        &&& self.raw_len() == self.elems().len()
        &&& self.raw_len() <= self.raw_cap()
        &&& self.is_spilled() ==> self.data_view().len() == 0
        &&& !self.is_spilled() ==> self.heap_view().len() == 0
    }
}

} // verus!
