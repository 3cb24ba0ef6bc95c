//! Iteration over small vectors: by reference, by mutable reference, and by value.

use std::collections::VecDeque;
use std::marker::PhantomData;
use vstd::prelude::*;

use crate::private::{SmallVecPrivate, SmallVecState};

verus! {

/// How many elements lie between the first address and the one behind the last of `len` elements:
/// those without size take no room, so there the two addresses are the same.
pub(crate) fn span<T>(len: usize) -> (n: usize)
    ensures
        n == if vstd::layout::size_of::<T>() == 0 {
            0
        } else {
            len
        },
{
    if std::mem::size_of::<T>() == 0 {
        0
    } else {
        len
    }
}

/// Hands out references to the elements, from the front, from the back, or both in turn.
pub struct SmallVecIterator<'a, T> {
    slice: &'a [T],
    ptr: usize,
    end: usize,
}

impl<'a, T> SmallVecIterator<'a, T> {
    /// The elements that are still to come.
    pub closed spec fn rest(self) -> Seq<T> {
        self.slice@.subrange(self.ptr as int, self.end as int)
    }

    #[verifier::type_invariant]
    spec fn in_bounds(self) -> bool {
        self.ptr <= self.end <= self.slice@.len()
    }

    /// An iterator over the elements of `slice`, none of which it meets where they have no size.
    pub(crate) fn over(slice: &'a [T]) -> (iter: Self)
        ensures
            iter.rest() == crate::model::walked(slice@),
    {
        let iter = SmallVecIterator { slice, ptr: 0, end: span::<T>(slice.len()) };
        assert(iter.rest() == crate::model::walked(slice@));
        iter
    }
}

impl<'a, T> Iterator for SmallVecIterator<'a, T> {
    type Item = &'a T;

    #[inline]
    fn next(&mut self) -> (item: Option<&'a T>)
        ensures
            old(self).rest().len() == 0 ==> item is None && final(self).rest() == old(self).rest(),
            old(self).rest().len() > 0 ==> {
                &&& item == Some(&old(self).rest().first())
                &&& final(self).rest() == old(self).rest().drop_first()
            },
    {
        proof {
            use_type_invariant(&*self);
        }
        if self.ptr == self.end {
            return None;
        }
        let at: usize = self.ptr;
        self.ptr = self.ptr + 1;
        Some(&self.slice[at])
    }
}

impl<'a, T> DoubleEndedIterator for SmallVecIterator<'a, T> {
    #[inline]
    fn next_back(&mut self) -> (item: Option<&'a T>)
        ensures
            old(self).rest().len() == 0 ==> item is None && final(self).rest() == old(self).rest(),
            old(self).rest().len() > 0 ==> {
                &&& item == Some(&old(self).rest().last())
                &&& final(self).rest() == old(self).rest().drop_last()
            },
    {
        proof {
            use_type_invariant(&*self);
        }
        if self.ptr == self.end {
            return None;
        }
        self.end = self.end - 1;
        Some(&self.slice[self.end])
    }
}

impl<'a, T> vstd::std_specs::iter::IteratorSpecImpl for SmallVecIterator<'a, T> {
    open spec fn obeys_prophetic_iter_laws(&self) -> bool {
        true
    }

    open spec fn remaining(&self) -> Seq<Self::Item> {
        self.rest().map_values(|item: T| &item)
    }

    open spec fn will_return_none(&self) -> bool {
        true
    }

    open spec fn decrease(&self) -> Option<nat> {
        Some(self.rest().len())
    }

    open spec fn initial_value_relation(&self, init: &Self) -> bool {
        init.rest() == self.rest()
    }

    open spec fn peek(&self, index: int) -> Option<Self::Item> {
        if 0 <= index < self.rest().len() {
            Some(&self.rest()[index])
        } else {
            None
        }
    }
}

impl<'a, T> vstd::std_specs::iter::DoubleEndedIteratorSpecImpl for SmallVecIterator<'a, T> {
    open spec fn peek_back(&self, index: int) -> Option<Self::Item> {
        if 0 <= index < self.rest().len() {
            Some(&self.rest()[self.rest().len() - index - 1])
        } else {
            None
        }
    }
}

/// Hands out mutable references to the elements, from the front.
pub struct SmallVecMutIterator<'a, T> {
    /// The elements that are still to come.
    pub rest: &'a mut [T],
}

impl<'a, T> Iterator for SmallVecMutIterator<'a, T> {
    type Item = &'a mut T;

    #[inline]
    fn next(&mut self) -> (item: Option<&'a mut T>)
        ensures
            old(self).rest@.len() == 0 ==> item is None && *final(self) == *old(self),
            old(self).rest@.len() > 0 ==> {
                &&& item is Some
                &&& *item->0 == old(self).rest@.first()
                &&& final(self).rest@ == old(self).rest@.drop_first()
                &&& final(old(self).rest)@ == seq![*final(item->0)] + final(final(self).rest)@
            },
    {
        if self.rest.len() == 0 {
            return None;
        }
        let mut rest: &'a mut [T] = &mut [];
        std::mem::swap(&mut rest, &mut self.rest);
        let (first, others) = rest.split_at_mut(1);
        self.rest = others;
        first.first_mut()
    }
}

// The general laws of iterators want all items known beforehand. The items here are borrows, whose
// last values are known when they end: the contract of `next` says how those come together.
impl<'a, T> vstd::std_specs::iter::IteratorSpecImpl for SmallVecMutIterator<'a, T> {
    open spec fn obeys_prophetic_iter_laws(&self) -> bool {
        false
    }

    open spec fn remaining(&self) -> Seq<Self::Item> {
        Seq::empty()
    }

    open spec fn will_return_none(&self) -> bool {
        true
    }

    open spec fn decrease(&self) -> Option<nat> {
        Some(self.rest@.len())
    }

    open spec fn initial_value_relation(&self, init: &Self) -> bool {
        init == self
    }

    open spec fn peek(&self, index: int) -> Option<Self::Item> {
        None
    }
}

/// Hands out the elements themselves, from the front. It owns them: those that are not asked for
/// go when the iterator goes.
pub struct SmallVecMoveIterator<'a, T> {
    pending: VecDeque<T>,
    _lifetime: PhantomData<&'a T>,
}

impl<'a, T> SmallVecMoveIterator<'a, T> {
    /// The elements that are still to come.
    pub closed spec fn rest(self) -> Seq<T> {
        self.pending@
    }

    /// An iterator that takes all the elements out of `vec`, whose stored length and capacity stay
    /// what they are.
    pub(crate) fn draining<V: SmallVecPrivate<T> + ?Sized>(vec: &mut V) -> (iter: Self)
        requires
            old(vec).wf(),
        ensures
            iter.rest() == old(vec).elems(),
            final(vec).data_view() == Seq::<T>::empty(),
            final(vec).heap_view() == Seq::<T>::empty(),
            final(vec).raw_len() == old(vec).raw_len(),
            final(vec).raw_cap() == old(vec).raw_cap(),
    {
        let mut pending: VecDeque<T> = VecDeque::new();
        prepend_all(&mut pending, vec.mut_ptr());
        prepend_all(&mut pending, vec.mut_region());
        assert(pending@ == old(vec).elems());
        SmallVecMoveIterator { pending, _lifetime: PhantomData }
    }

    /// The first of the elements that are still to come, if there is one.
    pub(crate) fn take_first(&mut self) -> (item: Option<T>)
        ensures
            old(self).rest().len() == 0 ==> item is None && final(self).rest() == old(self).rest(),
            old(self).rest().len() > 0 ==> {
                &&& item == Some(old(self).rest().first())
                &&& final(self).rest() == old(self).rest().drop_first()
            },
    {
        self.pending.pop_front()
    }
}

/// Moves all the elements of `block` to the front of `queue`.
fn prepend_all<T>(queue: &mut VecDeque<T>, block: &mut Vec<T>)
    ensures
        final(queue)@ == old(block)@ + old(queue)@,
        final(block)@ == Seq::<T>::empty(),
{
    loop
        invariant
            block@ + queue@ == old(block)@ + old(queue)@,
        ensures
            queue@ == old(block)@ + old(queue)@,
            block@ == Seq::<T>::empty(),
        decreases block@.len(),
    {
        match block.pop() {
            Some(value) => queue.push_front(value),
            None => {
                break;
            },
        }
    }
}

impl<'a, T> Iterator for SmallVecMoveIterator<'a, T> {
    type Item = T;

    #[inline]
    fn next(&mut self) -> (item: Option<T>)
        ensures
            old(self).rest().len() == 0 ==> item is None && final(self).rest() == old(self).rest(),
            old(self).rest().len() > 0 ==> {
                &&& item == Some(old(self).rest().first())
                &&& final(self).rest() == old(self).rest().drop_first()
            },
    {
        self.take_first()
    }
}

impl<'a, T> vstd::std_specs::iter::IteratorSpecImpl for SmallVecMoveIterator<'a, T> {
    open spec fn obeys_prophetic_iter_laws(&self) -> bool {
        true
    }

    open spec fn remaining(&self) -> Seq<Self::Item> {
        self.rest()
    }

    open spec fn will_return_none(&self) -> bool {
        true
    }

    open spec fn decrease(&self) -> Option<nat> {
        Some(self.rest().len())
    }

    open spec fn initial_value_relation(&self, init: &Self) -> bool {
        init.rest() == self.rest()
    }

    open spec fn peek(&self, index: int) -> Option<Self::Item> {
        if 0 <= index < self.rest().len() {
            Some(self.rest()[index])
        } else {
            None
        }
    }
}

} // verus!
