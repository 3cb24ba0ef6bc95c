//! What growable vectors have in common.

use vstd::prelude::*;

use crate::std_calls::range_mut;

verus! {

/// A vector that can be measured, pushed to, and written to by slices.
pub trait VecLike<T> {
    /// The elements.
    spec fn vec_view(&self) -> Seq<T>;

    /// The vector is in a state in which its operations may be called.
    spec fn vec_wf(&self) -> bool;

    /// `n` elements more may be pushed.
    spec fn vec_may_push(&self, n: nat) -> bool;

    /// Where `n` elements more may be pushed, fewer may be pushed as well.
    proof fn vec_may_push_fewer(&self, n: nat, fewer: nat)
        requires
            self.vec_wf(),
            self.vec_may_push(n),
            fewer <= n,
        ensures
            self.vec_may_push(fewer),
    ;

    /// The number of elements.
    fn vec_len(&self) -> (len: usize)
        requires
            self.vec_wf(),
        ensures
            len == self.vec_view().len(),
    ;

    /// Adds `value` at the end.
    fn vec_push(&mut self, value: T)
        requires
            old(self).vec_wf(),
            old(self).vec_may_push(1),
        ensures
            final(self).vec_wf(),
            final(self).vec_view() == old(self).vec_view().push(value),
            forall|n: nat|
                old(self).vec_may_push((n + 1) as nat) ==> #[trigger] final(self).vec_may_push(n),
    ;

    /// The elements from `start` up to `end`, to be read and written.
    fn vec_slice_mut<'a>(&'a mut self, start: usize, end: usize) -> (slice: &'a mut [T])
        requires
            old(self).vec_wf(),
            start <= end <= old(self).vec_view().len(),
        ensures
            slice@ == old(self).vec_view().subrange(start as int, end as int),
            final(slice)@.len() == slice@.len(),
            final(self).vec_wf(),
            final(self).vec_view() == crate::model::overwrite(
                old(self).vec_view(),
                start as int,
                end as int,
                final(slice)@,
            ),
            final(self).vec_view() == old(self).vec_view().take(start as int) + final(slice)@
                + old(self).vec_view().skip(end as int),
            forall|n: nat|
                #[trigger] final(self).vec_may_push(n) <==> old(self).vec_may_push(n),
    ;

    /// The elements from `start` on, to be read and written.
    fn vec_slice_from_mut<'a>(&'a mut self, start: usize) -> (slice: &'a mut [T])
        requires
            old(self).vec_wf(),
            start <= old(self).vec_view().len(),
        ensures
            slice@ == old(self).vec_view().skip(start as int),
            final(slice)@.len() == slice@.len(),
            final(self).vec_wf(),
            final(self).vec_view() == old(self).vec_view().take(start as int) + final(slice)@,
            forall|n: nat|
                #[trigger] final(self).vec_may_push(n) <==> old(self).vec_may_push(n),
    {
        let len: usize = self.vec_len();
        self.vec_slice_mut(start, len)
    }
}

impl<T> VecLike<T> for Vec<T> {
    open spec fn vec_view(&self) -> Seq<T> {
        self@
    }

    open spec fn vec_wf(&self) -> bool {
        true
    }

    open spec fn vec_may_push(&self, n: nat) -> bool {
        self@.len() + n <= usize::MAX
    }

    proof fn vec_may_push_fewer(&self, n: nat, fewer: nat) {
    }

    #[inline]
    fn vec_len(&self) -> (len: usize) {
        self.len()
    }

    #[inline]
    fn vec_push(&mut self, value: T) {
        self.push(value);
    }

    #[inline]
    fn vec_slice_mut<'a>(&'a mut self, start: usize, end: usize) -> (slice: &'a mut [T]) {
        range_mut(self, start, end)
    }
}

} // verus!
