//! The small vectors themselves, one for each size of the inline region.

use vstd::prelude::*;

use crate::iter::span;
use crate::private::{SmallVecPrivate, SmallVecState};
use crate::small_vec::SmallVec;
use crate::std_calls::{lower_size_bound, range_mut};
use crate::vec_like::VecLike;

verus! {

/// `bound` is a lower bound that `Iterator::size_hint` gave when it was asked of `iter`.
pub closed spec fn is_hinted<I: Iterator>(iter: I, bound: usize) -> bool {
    call_ensures(lower_size_bound::<I>, (&iter,), bound)
}

/// No number other than what the call itself returns passes for a hinted bound.
pub(crate) proof fn law_hint_is_what_was_returned<I: Iterator>(iter: I, bound: usize)
    ensures
        is_hinted(iter, bound) <==> call_ensures(lower_size_bound::<I>, (&iter,), bound),
{
}

/// A small vector whose inline region is made for `N` elements.
///
/// `data` is the inline region and `ptr` the heap block. Both are vectors, which only hold what
/// has been put there; [`SmallVecState::wf`] keeps one of them empty, and `data` within `N`.
pub struct SmallVecN<T, const N: usize> {
    len: usize,
    cap: usize,
    ptr: Vec<T>,
    data: Vec<T>,
}

/// A small vector with an inline region for 1 element.
pub type SmallVec1<T> = SmallVecN<T, 1>;

/// A small vector with an inline region for 2 elements.
pub type SmallVec2<T> = SmallVecN<T, 2>;

/// A small vector with an inline region for 4 elements.
pub type SmallVec4<T> = SmallVecN<T, 4>;

/// A small vector with an inline region for 8 elements.
pub type SmallVec8<T> = SmallVecN<T, 8>;

/// A small vector with an inline region for 16 elements.
pub type SmallVec16<T> = SmallVecN<T, 16>;

/// A small vector with an inline region for 24 elements.
pub type SmallVec24<T> = SmallVecN<T, 24>;

/// A small vector with an inline region for 32 elements.
pub type SmallVec32<T> = SmallVecN<T, 32>;

impl<T, const N: usize> SmallVecPrivate<T> for SmallVecN<T, N> {
    closed spec fn raw_len(&self) -> usize {
        self.len
    }

    closed spec fn raw_cap(&self) -> usize {
        self.cap
    }

    open spec fn inline_slots() -> usize {
        N
    }

    closed spec fn data_view(&self) -> Seq<T> {
        self.data@
    }

    closed spec fn heap_view(&self) -> Seq<T> {
        self.ptr@
    }

    fn set_len(&mut self, new_len: usize) {
        self.len = new_len
    }

    fn set_cap(&mut self, new_cap: usize) {
        self.cap = new_cap
    }

    fn data(&self, index: usize) -> (slots: &[T]) {
        let len: usize = self.data.len();
        let start: usize = if index <= len { index } else { len };
        &self.data.as_slice()[start..len]
    }

    fn mut_data(&mut self, index: usize) -> (slots: &mut [T]) {
        let len: usize = self.data.len();
        let start: usize = if index <= len { index } else { len };
        range_mut(&mut self.data, start, len)
    }

    fn mut_region(&mut self) -> (region: &mut Vec<T>) {
        &mut self.data
    }

    fn ptr(&self) -> (block: &Vec<T>) {
        &self.ptr
    }

    fn mut_ptr(&mut self) -> (block: &mut Vec<T>) {
        &mut self.ptr
    }

    fn set_ptr(&mut self, new_ptr: Vec<T>) {
        self.ptr = new_ptr
    }
}

impl<T, const N: usize> SmallVec<T> for SmallVecN<T, N> {
    fn inline_size(&self) -> (size: usize)
        ensures
            size == N,
    {
        N
    }

    fn len(&self) -> (len: usize) {
        self.len
    }

    fn is_empty(&self) -> (empty: bool) {
        self.len == 0
    }

    fn cap(&self) -> (cap: usize) {
        self.cap
    }
}

impl<T, const N: usize> VecLike<T> for SmallVecN<T, N> {
    open spec fn vec_view(&self) -> Seq<T> {
        self.elems()
    }

    open spec fn vec_wf(&self) -> bool {
        self.wf()
    }

    open spec fn vec_may_push(&self, n: nat) -> bool {
        self.model().may_push(n)
    }

    proof fn vec_may_push_fewer(&self, n: nat, fewer: nat) {
    }

    #[inline]
    fn vec_len(&self) -> (len: usize)
        ensures
            len == self.elems().len(),
    {
        self.len()
    }

    #[inline]
    fn vec_push(&mut self, value: T)
        ensures
            final(self).model() == old(self).model().push(value),
            final(self).elems() == old(self).elems().push(value),
            final(self).raw_cap() == if old(self).elems().len() == old(self).raw_cap() {
                if old(self).raw_cap() == 0 {
                    1
                } else if 2 * old(self).raw_cap() <= usize::MAX {
                    2 * old(self).raw_cap()
                } else {
                    usize::MAX as int
                }
            } else {
                old(self).raw_cap() as int
            },
    {
        self.push(value);
    }

    #[inline]
    fn vec_slice_mut<'a>(&'a mut self, start: usize, end: usize) -> (slice: &'a mut [T])
        ensures
            slice@ == old(self).elems().subrange(start as int, end as int),
            final(self).elems() == old(self).elems().take(start as int) + final(slice)@
                + old(self).elems().skip(end as int),
            final(self).raw_cap() == old(self).raw_cap(),
    {
        self.slice_mut(start, end)
    }

    #[inline]
    fn vec_slice_from_mut<'a>(&'a mut self, start: usize) -> (slice: &'a mut [T])
        ensures
            slice@ == old(self).elems().skip(start as int),
            final(self).elems() == old(self).elems().take(start as int) + final(slice)@,
            final(self).raw_cap() == old(self).raw_cap(),
    {
        self.slice_from_mut(start)
    }
}

impl<T, const N: usize> SmallVecN<T, N> {
    /// A vector without elements.
    #[inline]
    pub fn new() -> (vec: Self)
        ensures
            vec.wf(),
            vec.model() == crate::model::Model::<T>::new(N as nat),
            vec.elems().len() == 0,
            vec.raw_cap() == N,
            vec.data_view().len() == 0,
            vec.heap_view().len() == 0,
    {
        SmallVecN { len: 0, cap: N, ptr: Vec::new(), data: Vec::new() }
    }

    /// A vector of all the items of `iterable`. The lower bound that `iterable` gives for their
    /// number tells how much room is made for them beforehand.
    pub fn from_iter<I: Iterator<Item = T>>(iterable: I) -> (vec: Self)
        requires
            vstd::std_specs::iter::IteratorSpec::obeys_prophetic_iter_laws(&iterable),
            vstd::std_specs::iter::IteratorSpec::remaining(&iterable).len() <= usize::MAX,
        ensures
            vec.wf(),
            vec.elems() == vstd::std_specs::iter::IteratorSpec::remaining(&iterable),
            exists|bound: usize|
                #![trigger is_hinted(iterable, bound)]
                is_hinted(iterable, bound) && vec.model() == crate::model::Model::<T>::new(
                    N as nat,
                ).extend(
                    bound as nat,
                    vstd::std_specs::iter::IteratorSpec::remaining(&iterable),
                ),
            (forall|bound: usize| #[trigger]
                is_hinted(iterable, bound) ==> bound
                    <= vstd::std_specs::iter::IteratorSpec::remaining(&iterable).len())
                ==> {
                &&& vec.raw_cap() > N
                    <==> vstd::std_specs::iter::IteratorSpec::remaining(&iterable).len() > N
                &&& vec.raw_cap() <= N || vec.raw_cap() <= 2
                    * vstd::std_specs::iter::IteratorSpec::remaining(&iterable).len()
            },
    {
        let bound: usize = lower_size_bound(&iterable);
        proof {
            assert(is_hinted(iterable, bound));
            crate::laws::law_honest_bound_stays_inline(
                N as nat,
                bound as nat,
                vstd::std_specs::iter::IteratorSpec::remaining(&iterable),
            );
        }
        Self::from_iter_bounded(iterable, bound)
    }

    /// A vector of all the items of `iterable`, with room for `lower_size_bound` elements made
    /// beforehand.
    pub fn from_iter_bounded<I: Iterator<Item = T>>(iterable: I, lower_size_bound: usize) -> (vec:
        Self)
        requires
            vstd::std_specs::iter::IteratorSpec::obeys_prophetic_iter_laws(&iterable),
            vstd::std_specs::iter::IteratorSpec::remaining(&iterable).len() <= usize::MAX,
        ensures
            vec.wf(),
            vec.model() == crate::model::Model::<T>::new(N as nat).extend(
                lower_size_bound as nat,
                vstd::std_specs::iter::IteratorSpec::remaining(&iterable),
            ),
            vec.elems() == vstd::std_specs::iter::IteratorSpec::remaining(&iterable),
            vstd::std_specs::iter::IteratorSpec::remaining(&iterable).len() <= (if lower_size_bound
                > N {
                lower_size_bound
            } else {
                N
            }) ==> vec.raw_cap() == (if lower_size_bound > N {
                lower_size_bound
            } else {
                N
            }),
    {
        let mut vec = Self::new();
        if lower_size_bound > vec.cap() {
            vec.grow(lower_size_bound);
        }
        proof {
            crate::laws::lemma_room_is_used_where_it_suffices(
                vec.model(),
                vstd::std_specs::iter::IteratorSpec::remaining(&iterable),
            );
        }
        vec.push_items(iterable);
        vec
    }

    /// Adds all the items of `iter` at the end. The lower bound that `iter` gives for their number
    /// tells how much room is made for them beforehand.
    pub fn extend<I: Iterator<Item = T>>(&mut self, iter: I)
        requires
            old(self).wf(),
            vstd::std_specs::iter::IteratorSpec::obeys_prophetic_iter_laws(&iter),
            forall|bound: usize|
                #[trigger] old(self).model().may_extend(
                    bound as nat,
                    vstd::std_specs::iter::IteratorSpec::remaining(&iter).len(),
                ),
        ensures
            final(self).wf(),
            final(self).elems() == old(self).elems()
                + vstd::std_specs::iter::IteratorSpec::remaining(&iter),
            exists|bound: usize|
                #![trigger is_hinted(iter, bound)]
                is_hinted(iter, bound) && final(self).model() == old(self).model().extend(
                    bound as nat,
                    vstd::std_specs::iter::IteratorSpec::remaining(&iter),
                ),
            (forall|bound: usize| #[trigger]
                is_hinted(iter, bound) ==> bound
                    <= vstd::std_specs::iter::IteratorSpec::remaining(&iter).len())
                && old(self).elems().len()
                + vstd::std_specs::iter::IteratorSpec::remaining(&iter).len()
                <= old(self).raw_cap() ==> final(self).raw_cap() == old(self).raw_cap(),
    {
        let bound: usize = lower_size_bound(&iter);
        proof {
            assert(is_hinted(iter, bound));
            crate::laws::law_honest_bound_uses_room(
                self.model(),
                bound as nat,
                vstd::std_specs::iter::IteratorSpec::remaining(&iter),
            );
        }
        self.extend_bounded(iter, bound)
    }

    /// Adds all the items of `iter` at the end, with room for `lower_size_bound` elements made
    /// beforehand.
    pub fn extend_bounded<I: Iterator<Item = T>>(&mut self, iter: I, lower_size_bound: usize)
        requires
            old(self).wf(),
            vstd::std_specs::iter::IteratorSpec::obeys_prophetic_iter_laws(&iter),
            old(self).model().may_extend(
                lower_size_bound as nat,
                vstd::std_specs::iter::IteratorSpec::remaining(&iter).len(),
            ),
        ensures
            final(self).wf(),
            final(self).model() == old(self).model().extend(
                lower_size_bound as nat,
                vstd::std_specs::iter::IteratorSpec::remaining(&iter),
            ),
            final(self).elems() == old(self).elems()
                + vstd::std_specs::iter::IteratorSpec::remaining(&iter),
            old(self).elems().len() + lower_size_bound <= old(self).raw_cap()
                && old(self).elems().len()
                + vstd::std_specs::iter::IteratorSpec::remaining(&iter).len()
                <= old(self).raw_cap() ==> final(self).raw_cap() == old(self).raw_cap(),
            old(self).raw_cap() < old(self).elems().len() + lower_size_bound <= usize::MAX
                && vstd::std_specs::iter::IteratorSpec::remaining(&iter).len()
                <= lower_size_bound ==> final(self).raw_cap() == old(self).elems().len()
                + lower_size_bound,
            old(self).elems().len() + lower_size_bound > usize::MAX ==> final(self).raw_cap()
                == usize::MAX,
    {
        let target_len: usize = self.len().saturating_add(lower_size_bound);
        if target_len > self.cap() {
            self.grow(target_len);
        }
        proof {
            crate::laws::lemma_room_is_used_where_it_suffices(
                self.model(),
                vstd::std_specs::iter::IteratorSpec::remaining(&iter),
            );
        }
        self.push_items(iter);
    }

    /// Pushes the items of `iter` one after the other.
    fn push_items<I: Iterator<Item = T>>(&mut self, iter: I)
        requires
            old(self).wf(),
            vstd::std_specs::iter::IteratorSpec::obeys_prophetic_iter_laws(&iter),
            old(self).model().may_push(
                vstd::std_specs::iter::IteratorSpec::remaining(&iter).len(),
            ),
        ensures
            final(self).wf(),
            final(self).model() == old(self).model().push_all(
                vstd::std_specs::iter::IteratorSpec::remaining(&iter),
            ),
    {
        let ghost items = vstd::std_specs::iter::IteratorSpec::remaining(&iter);
        let ghost before = self.model();
        let mut iter = iter;
        let ghost mut n: nat = 0;
        assert(self.model() == before.push_all(items.take(0)));
        loop
            invariant
                n <= items.len(),
                vstd::std_specs::iter::IteratorSpec::obeys_prophetic_iter_laws(&iter),
                vstd::std_specs::iter::IteratorSpec::remaining(&iter) == items.skip(n as int),
                self.wf(),
                self.model() == before.push_all(items.take(n as int)),
                self.model().may_push((items.len() - n) as nat),
            ensures
                n == items.len(),
                self.wf(),
                self.model() == before.push_all(items.take(n as int)),
            decreases usize::MAX - self.raw_len(),
        {
            match iter.next() {
                Some(item) => {
                    self.push(item);
                    proof {
                        crate::laws::law_push_all_one_more(before, items.take(n as int), item);
                        assert(items.take(n as int).push(item) == items.take(n as int + 1));
                        n = n + 1;
                    }
                },
                None => {
                    break;
                },
            }
        }
        assert(items.take(items.len() as int) == items);
    }
}

impl<T: Clone, const N: usize> Clone for SmallVecN<T, N> {
    /// A vector of clones of the elements that [`iter`](SmallVec::iter) gives, made from an empty
    /// one by pushing them in turn.
    fn clone(&self) -> (vec: Self)
        ensures
            vec.wf(),
            vec.elems().len() == crate::model::walked(self.elems()).len(),
            forall|i: int|
                0 <= i < crate::model::walked(self.elems()).len() ==> vstd::pervasive::strictly_cloned(
                    crate::model::walked(self.elems())[i],
                    #[trigger] vec.elems()[i],
                ),
            vstd::layout::size_of::<T>() != 0 ==> {
                &&& vec.elems().len() == self.elems().len()
                &&& forall|i: int|
                    0 <= i < self.elems().len() ==> vstd::pervasive::strictly_cloned(
                        self.elems()[i],
                        #[trigger] vec.elems()[i],
                    )
                &&& self.elems().len() <= N ==> vec.raw_cap() == N
            },
            vstd::layout::size_of::<T>() == 0 ==> vec.elems().len() == 0 && vec.raw_cap() == N,
            vec.model() == crate::model::Model::<T>::new(N as nat).push_all(vec.elems()),
            vec.raw_cap() == crate::model::cap_after(0, N as nat, crate::model::walked(self.elems()).len()),
    {
        let mut new_vector = Self::new();
        let elements = self.begin();
        let walked_len: usize = span::<T>(elements.len());
        let mut i: usize = 0;
        while i < walked_len
            invariant
                i <= walked_len <= elements@.len(),
                elements@ == self.elems(),
                walked_len == crate::model::walked(self.elems()).len(),
                walked_len > 0 ==> elements@ == crate::model::walked(self.elems()),
                new_vector.wf(),
                new_vector.elems().len() == i,
                forall|j: int|
                    0 <= j < i ==> vstd::pervasive::strictly_cloned(
                        elements@[j],
                        #[trigger] new_vector.elems()[j],
                    ),
                new_vector.raw_cap() == crate::model::cap_after(0, N as nat, i as nat),
                new_vector.raw_cap() >= N,
            decreases walked_len - i,
        {
            new_vector.push(elements[i].clone());
            i = i + 1;
        }
        proof {
            if walked_len <= N {
                crate::laws::law_room_is_used(
                    crate::model::Model::<T>::new(N as nat),
                    elements@.take(walked_len as int),
                );
            }
        }
        new_vector
    }
}

} // verus!
