//! Calls into the standard library that are trusted to do what is stated of them here.

use vstd::prelude::*;

verus! {

/// `&mut v[start..end]`, the `IndexMut<Range<usize>>` of `Vec`: the slice of the elements from
/// `start` up to `end`. What is written through the slice is written to those positions of the
/// vector and to no other, and a slice cannot change its length.
#[verifier::external_body]
pub(crate) fn range_mut<T>(v: &mut Vec<T>, start: usize, end: usize) -> (slice: &mut [T])
    requires
        start <= end <= old(v)@.len(),
    ensures
        slice@ == old(v)@.subrange(start as int, end as int),
        final(slice)@.len() == slice@.len(),
        final(v)@ == crate::model::overwrite(old(v)@, start as int, end as int, final(slice)@),
{
    &mut v[start..end]
}

/// The lower bound that `Iterator::size_hint` gives. An iterator is free to give any number, so
/// nothing is claimed of the result.
#[verifier::external_body]
pub(crate) fn lower_size_bound<I: Iterator>(iter: &I) -> (bound: usize) {
    iter.size_hint().0
}

} // verus!
