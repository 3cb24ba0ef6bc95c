//! The interface that small vectors of all sizes share.

use vstd::prelude::*;

use crate::iter::{span, SmallVecIterator, SmallVecMoveIterator, SmallVecMutIterator};
use crate::private::{SmallVecPrivate, SmallVecState};
use crate::std_calls::range_mut;

verus! {

/// The capacity that a full vector of capacity `cap` grows to.
fn double(cap: usize) -> (new_cap: usize)
    ensures
        new_cap == crate::model::doubled(cap as nat),
{
    if cap == 0 {
        1
    } else if cap <= usize::MAX / 2 {
        cap * 2
    } else {
        usize::MAX
    }
}

/// A vector that holds its elements in an inline region as long as they fit, and in a heap block
/// from then on. Both places are vectors of the standard library: what is told apart here is which
/// of them has the elements.
pub trait SmallVec<T>: SmallVecPrivate<T> {
    /// The number of elements that the inline region can hold.
    fn inline_size(&self) -> (size: usize)
        ensures
            size == Self::inline_slots(),
    ;

    /// The number of elements: the stored length, which is the number of elements as long as the
    /// parts agree.
    fn len(&self) -> (len: usize)
        ensures
            len == self.raw_len(),
    ;

    /// Whether there are no elements.
    fn is_empty(&self) -> (empty: bool)
        ensures
            empty <==> self.raw_len() == 0,
    ;

    /// The number of elements up to which the vector takes more without growing. The memory for
    /// them need not be there beforehand.
    fn cap(&self) -> (cap: usize)
        ensures
            cap == self.raw_cap(),
    ;

    /// Whether the elements are in the heap block, not in the inline region.
    fn spilled(&self) -> (spilled: bool)
        ensures
            spilled == self.is_spilled(),
            spilled <==> self.raw_cap() > Self::inline_slots(),
    {
        self.cap() > self.inline_size()
    }

    /// The place where the elements are, from the first element on.
    fn begin(&self) -> (elements: &[T])
        ensures
            elements@ == self.elems(),
            elements@ == if self.raw_cap() > Self::inline_slots() {
                self.heap_view()
            } else {
                self.data_view()
            },
    {
        if self.spilled() {
            self.ptr().as_slice()
        } else {
            let elements = self.data(0);
            assert(self.data_view().skip(0) == self.data_view());
            elements
        }
    }

    /// The place where the elements are, to be read and written. Whoever changes the number of
    /// elements in it has to store the length.
    fn begin_mut(&mut self) -> (place: &mut Vec<T>)
        ensures
            place@ == old(self).elems(),
            final(self).elems() == final(place)@,
            final(self).raw_len() == old(self).raw_len(),
            final(self).raw_cap() == old(self).raw_cap(),
            old(self).is_spilled() ==> final(self).data_view() == old(self).data_view(),
            !old(self).is_spilled() ==> final(self).heap_view() == old(self).heap_view(),
    {
        if self.spilled() {
            self.mut_ptr()
        } else {
            self.mut_region()
        }
    }

    /// The position behind the last element, counted from [`begin`](SmallVec::begin).
    fn end(&self) -> (position: usize)
        requires
            self.wf(),
        ensures
            position == self.elems().len(),
    {
        self.len()
    }

    /// The position behind the last element, counted from [`begin_mut`](SmallVec::begin_mut): the
    /// one that the next element is written to.
    fn end_mut(&mut self) -> (position: usize)
        requires
            old(self).wf(),
        ensures
            position == old(self).elems().len(),
            final(self).raw_len() == old(self).raw_len(),
            final(self).raw_cap() == old(self).raw_cap(),
            final(self).data_view() == old(self).data_view(),
            final(self).heap_view() == old(self).heap_view(),
    {
        self.end()
    }

    /// References to the elements, from the first to the last and from the last to the first. It
    /// meets no elements without size.
    fn iter<'a>(&'a self) -> (iter: SmallVecIterator<'a, T>)
        requires
            self.wf(),
        ensures
            iter.rest() == crate::model::walked(self.elems()),
            vstd::layout::size_of::<T>() != 0 ==> iter.rest() == self.elems(),
            vstd::layout::size_of::<T>() == 0 ==> iter.rest().len() == 0,
    {
        SmallVecIterator::over(self.as_slice())
    }

    /// Mutable references to the elements, from the first to the last. It meets no elements
    /// without size.
    fn mut_iter<'a>(&'a mut self) -> (iter: SmallVecMutIterator<'a, T>)
        requires
            old(self).wf(),
        ensures
            iter.rest@ == crate::model::walked(old(self).elems()),
            vstd::layout::size_of::<T>() != 0 ==> iter.rest@ == old(self).elems(),
            vstd::layout::size_of::<T>() == 0 ==> iter.rest@.len() == 0,
            final(self).elems().len() == old(self).elems().len(),
            final(iter.rest)@.len() == iter.rest@.len(),
            final(self).wf(),
            final(self).elems() == if vstd::layout::size_of::<T>() == 0 {
                old(self).elems()
            } else {
                final(iter.rest)@
            },
            final(self).raw_cap() == old(self).raw_cap(),
    {
        let walked_len: usize = span::<T>(self.len());
        SmallVecMutIterator { rest: self.slice_mut(0, walked_len) }
    }

    /// The elements themselves, from the first to the last.
    ///
    /// NB: This takes the elements out of the vector and leaves it behind empty, with nothing but
    /// its inline region, instead of consuming it.
    fn into_iter<'a>(&'a mut self) -> (iter: SmallVecMoveIterator<'a, T>)
        requires
            old(self).wf(),
        ensures
            iter.rest() == old(self).elems(),
            final(self).wf(),
            final(self).model() == old(self).model().cleared(),
            final(self).elems().len() == 0,
            final(self).raw_cap() == Self::inline_slots(),
    {
        let iter = SmallVecMoveIterator::draining(self);
        // The block has nothing in it any more: let it go.
        self.set_ptr(Vec::new());
        let inline_size: usize = self.inline_size();
        self.set_cap(inline_size);
        self.set_len(0);
        iter
    }

    /// Adds `value` at the end. A full vector grows to twice its capacity first.
    fn push(&mut self, value: T)
        requires
            old(self).wf(),
            old(self).model().may_push(1),
        ensures
            final(self).wf(),
            final(self).model() == old(self).model().push(value),
            final(self).elems() == old(self).elems().push(value),
            final(self).raw_cap() == if old(self).elems().len() == old(self).raw_cap() {
                if old(self).raw_cap() == 0 {
                    1
                } else if 2 * old(self).raw_cap() <= usize::MAX {
                    2 * old(self).raw_cap()
                } else {
                    usize::MAX as int
                }
            } else {
                old(self).raw_cap() as int
            },
    {
        let cap: usize = self.cap();
        if self.len() == cap {
            self.grow(double(cap));
        }
        self.begin_mut().push(value);
        let len: usize = self.len();
        self.set_len(len + 1);
    }

    /// Moves all the elements of `other` to the end of this vector.
    fn push_all_move<V: SmallVecPrivate<T>>(&mut self, other: V)
        requires
            old(self).wf(),
            other.wf(),
            old(self).model().may_push(other.elems().len()),
        ensures
            final(self).wf(),
            final(self).model() == old(self).model().push_all(other.elems()),
            final(self).elems() == old(self).elems() + other.elems(),
            old(self).elems().len() + other.elems().len() <= old(self).raw_cap()
                ==> final(self).raw_cap() == old(self).raw_cap(),
    {
        let mut other = other;
        let ghost values = other.elems();
        let ghost before = self.model();
        let mut iter = SmallVecMoveIterator::draining(&mut other);
        assert(self.model() == before.push_all(values.take(0)));
        let ghost mut n: nat = 0;
        loop
            invariant
                n <= values.len(),
                iter.rest() == values.skip(n as int),
                self.wf(),
                self.model() == before.push_all(values.take(n as int)),
                self.model().may_push((values.len() - n) as nat),
            ensures
                n == values.len(),
                self.wf(),
                self.model() == before.push_all(values.take(n as int)),
            decreases values.len() - n,
        {
            match iter.take_first() {
                Some(value) => {
                    self.push(value);
                    proof {
                        crate::laws::law_push_all_one_more(before, values.take(n as int), value);
                        assert(values.take(n as int).push(value) == values.take(n as int + 1));
                        n = n + 1;
                    }
                },
                None => {
                    break;
                },
            }
        }
        assert(values.take(values.len() as int) == values);
        proof {
            if before.elems.len() + values.len() <= before.cap {
                crate::laws::law_room_is_used(before, values);
            }
        }
    }

    /// Takes the last element away and returns it; `None` if there is none.
    fn pop(&mut self) -> (value: Option<T>)
        requires
            old(self).wf(),
            old(self).elems().len() <= isize::MAX + 1,
        ensures
            value == old(self).model().last(),
            final(self).wf(),
            final(self).model() == old(self).model().pop(),
            old(self).elems().len() == 0 ==> value is None && final(self).elems().len() == 0,
            old(self).elems().len() > 0 ==> {
                &&& value == Some(old(self).elems().last())
                &&& final(self).elems() == old(self).elems().drop_last()
            },
            final(self).raw_cap() == old(self).raw_cap(),
    {
        if self.len() == 0 {
            return None;
        }
        let last_index: usize = self.len() - 1;
        let value = self.begin_mut().pop();
        self.set_len(last_index);
        value
    }

    /// Moves the elements to a heap block with room for `new_cap` elements. An empty vector can
    /// also be given a capacity that its inline region covers.
    fn grow(&mut self, new_cap: usize)
        requires
            old(self).wf(),
            old(self).model().may_grow(new_cap as nat),
        ensures
            final(self).wf(),
            final(self).model() == old(self).model().grow(new_cap as nat),
            final(self).elems() == old(self).elems(),
            final(self).raw_cap() == new_cap,
    {
        let mut moved: Vec<T> = Vec::new();
        if new_cap > self.inline_size() {
            // Without the memory now, the block takes it piece by piece later.
            let _ = moved.try_reserve(new_cap);
        }
        moved.append(self.begin_mut());
        // The block that was there, if any, has nothing in it any more: it goes.
        self.set_ptr(moved);
        self.set_cap(new_cap);
    }

    /// The element at position `index`.
    fn get<'a>(&'a self, index: usize) -> (element: &'a T)
        requires
            self.wf(),
            index < self.elems().len(),
        ensures
            *element == self.elems()[index as int],
    {
        &self.begin()[index]
    }

    /// The element at position `index`, to be read and written.
    fn get_mut<'a>(&'a mut self, index: usize) -> (element: &'a mut T)
        requires
            old(self).wf(),
            index < old(self).elems().len(),
        ensures
            *element == old(self).elems()[index as int],
            final(self).wf(),
            final(self).elems() == old(self).elems().update(index as int, *final(element)),
            final(self).raw_cap() == old(self).raw_cap(),
    {
        &mut self.begin_mut()[index]
    }

    /// The elements from position `start` up to position `end`, which is not among them.
    fn slice<'a>(&'a self, start: usize, end: usize) -> (slice: &'a [T])
        requires
            self.wf(),
            start <= end <= self.elems().len(),
        ensures
            slice@ == self.elems().subrange(start as int, end as int),
    {
        &self.begin()[start..end]
    }

    /// All the elements.
    fn as_slice<'a>(&'a self) -> (slice: &'a [T])
        requires
            self.wf(),
        ensures
            slice@ == self.elems(),
    {
        let slice = self.slice(0, self.len());
        assert(self.elems().subrange(0, self.elems().len() as int) == self.elems());
        slice
    }

    /// All the elements, to be read and written.
    fn as_slice_mut<'a>(&'a mut self) -> (slice: &'a mut [T])
        requires
            old(self).wf(),
        ensures
            slice@ == old(self).elems(),
            final(slice)@.len() == slice@.len(),
            final(self).wf(),
            final(self).elems() == final(slice)@,
            final(self).raw_cap() == old(self).raw_cap(),
    {
        let len: usize = self.len();
        self.slice_mut(0, len)
    }

    /// The elements from position `start` up to position `end`, which is not among them, to be
    /// read and written.
    fn slice_mut<'a>(&'a mut self, start: usize, end: usize) -> (slice: &'a mut [T])
        requires
            old(self).wf(),
            start <= end <= old(self).elems().len(),
        ensures
            slice@ == old(self).elems().subrange(start as int, end as int),
            final(slice)@.len() == slice@.len(),
            final(self).wf(),
            final(self).elems() == crate::model::overwrite(
                old(self).elems(),
                start as int,
                end as int,
                final(slice)@,
            ),
            final(self).elems() == old(self).elems().take(start as int) + final(slice)@
                + old(self).elems().skip(end as int),
            final(self).raw_cap() == old(self).raw_cap(),
    {
        range_mut(self.begin_mut(), start, end)
    }

    /// The elements from position `start` on, to be read and written.
    fn slice_from_mut<'a>(&'a mut self, start: usize) -> (slice: &'a mut [T])
        requires
            old(self).wf(),
            start <= old(self).elems().len(),
        ensures
            slice@ == old(self).elems().skip(start as int),
            final(slice)@.len() == slice@.len(),
            final(self).wf(),
            final(self).elems() == old(self).elems().take(start as int) + final(slice)@,
            final(self).raw_cap() == old(self).raw_cap(),
    {
        let len: usize = self.len();
        self.slice_mut(start, len)
    }
}

} // verus!
