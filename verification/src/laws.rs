//! What holds of operations taken together.

use vstd::prelude::*;

use crate::iter::{SmallVecIterator, SmallVecMoveIterator};
use crate::model::Model;
use crate::private::{SmallVecPrivate, SmallVecState};
use crate::sizes::{
    SmallVec1, SmallVec16, SmallVec2, SmallVec24, SmallVec32, SmallVec4, SmallVec8, SmallVecN,
};
use crate::vec_like::VecLike;

verus! {

/// A push adds its element behind all the others. A full vector doubles its capacity for it, from
/// none to one, and at the end of what a `usize` can count goes as far as that; one that is not
/// full keeps its capacity.
pub proof fn law_push_doubles_when_full<T>(m: Model<T>, value: T)
    ensures
        m.push(value).elems == m.elems.push(value),
        m.push(value).inline_size == m.inline_size,
        m.elems.len() == m.cap && m.cap == 0 ==> m.push(value).cap == 1,
        m.elems.len() == m.cap && m.cap > 0 && 2 * m.cap <= usize::MAX ==> m.push(value).cap == 2
            * m.cap,
        m.elems.len() == m.cap && 2 * m.cap > usize::MAX ==> m.push(value).cap == usize::MAX,
        m.elems.len() != m.cap ==> m.push(value).cap == m.cap,
{
}

/// The capacity after a number of pushes, push by push: none leaves it alone, and each further one
/// doubles it where the elements have come to fill it, and leaves it alone where they have not.
pub proof fn law_capacity_push_by_push(len: nat, cap: nat, n: nat)
    ensures
        crate::model::cap_after(len, cap, 0) == cap,
        ({
            let before = crate::model::cap_after(len, cap, n);
            let after = crate::model::cap_after(len, cap, n + 1);
            &&& len + n != before ==> after == before
            &&& len + n == before && before == 0 ==> after == 1
            &&& len + n == before && 0 < 2 * before <= usize::MAX ==> after == 2 * before
            &&& len + n == before && 2 * before > usize::MAX ==> after == usize::MAX
        }),
{
}

/// Pushing nothing changes nothing, and pushing `values` puts them behind the elements as they
/// are.
pub proof fn law_push_all_appends<T>(m: Model<T>, values: Seq<T>)
    ensures
        m.push_all(Seq::empty()) == m,
        m.push_all(values).elems == m.elems + values,
        m.push_all(values).inline_size == m.inline_size,
{
    assert(m.push_all(Seq::empty()) =~= m);
}

/// Pushes onto a full vector make its capacity twice what it was, and no more than that as long as
/// they all fit it.
pub proof fn law_one_doubling_serves_many<T>(m: Model<T>, values: Seq<T>)
    requires
        m.elems.len() == m.cap,
        2 * m.cap <= usize::MAX,
        0 < values.len() <= m.cap,
    ensures
        m.push_all(values).cap == 2 * m.cap,
    decreases values.len(),
{
    law_push_all_one_more(m, values.drop_last(), values.last());
    assert(values.drop_last().push(values.last()) == values);
    if values.len() > 1 {
        law_one_doubling_serves_many(m, values.drop_last());
    } else {
        assert(values.drop_last() == Seq::<T>::empty());
        law_push_all_appends(m, values.drop_last());
    }
}

/// A pop gives the last element and takes it away; of a vector without elements it gives nothing
/// and changes nothing. The capacity stays.
pub proof fn law_pop_takes_the_last<T>(m: Model<T>)
    ensures
        m.elems.len() == 0 ==> m.last() is None && m.pop() == m,
        m.elems.len() > 0 ==> {
            &&& m.last() == Some(m.elems[m.elems.len() - 1])
            &&& m.pop().elems == m.elems.take(m.elems.len() - 1)
        },
        m.pop().cap == m.cap,
        m.pop().inline_size == m.inline_size,
{
    if m.elems.len() > 0 {
        assert(m.pop().elems =~= m.elems.take(m.elems.len() - 1));
    }
}

/// Growing changes the capacity to what is asked for, and nothing else.
pub proof fn law_grow_changes_only_the_capacity<T>(m: Model<T>, new_cap: nat)
    ensures
        m.grow(new_cap).elems == m.elems,
        m.grow(new_cap).cap == new_cap,
        m.grow(new_cap).inline_size == m.inline_size,
        m.may_grow(new_cap) <==> m.elems.len() <= new_cap && (m.elems.len() > 0 ==> new_cap
            > m.inline_size),
{
}

/// A new vector, and one whose elements were all taken out, holds nothing and has room for exactly
/// what the inline region can hold.
pub proof fn law_empty_vectors_are_inline<T>(m: Model<T>, inline_size: nat)
    ensures
        Model::<T>::new(inline_size).elems.len() == 0,
        Model::<T>::new(inline_size).cap == inline_size,
        Model::<T>::new(inline_size).inline_size == inline_size,
        m.cleared().elems.len() == 0,
        m.cleared().cap == m.inline_size,
        m.cleared().inline_size == m.inline_size,
{
}

/// The elements are in the heap block where the capacity is above the inline size, and only there.
pub proof fn law_capacity_tells_the_place<T>(m: Model<T>)
    ensures
        m.spilled() <==> m.cap > m.inline_size,
        m.wf() <==> m.elems.len() <= m.cap && m.cap <= usize::MAX && m.inline_size <= usize::MAX,
{
}

/// Making room for elements to come changes the capacity where it is too small, and then to the
/// number of all the elements, or to what a `usize` can count; the elements stay.
pub proof fn law_reserve_takes_what_is_needed<T>(m: Model<T>, additional: nat)
    ensures
        m.reserve(additional).elems == m.elems,
        m.reserve(additional).inline_size == m.inline_size,
        m.elems.len() + additional <= m.cap && m.cap <= usize::MAX ==> m.reserve(additional) == m,
        m.cap < m.elems.len() + additional <= usize::MAX ==> m.reserve(additional).cap
            == m.elems.len() + additional,
        m.elems.len() + additional > usize::MAX && m.cap <= usize::MAX ==> m.reserve(
            additional,
        ).cap == usize::MAX,
{
}

/// Extending by one item more is extending and then pushing that item. Extending by none only
/// makes the room for as many as the bound says, where there is too little. With nothing promised,
/// extending is pushing.
pub proof fn law_extend_item_by_item<T>(m: Model<T>, bound: nat, values: Seq<T>, value: T)
    requires
        m.elems.len() <= m.cap <= usize::MAX,
    ensures
        m.extend(bound, values).elems == m.elems + values,
        m.extend(bound, values.push(value)) == m.extend(bound, values).push(value),
        m.extend(bound, Seq::empty()).cap == if m.elems.len() + bound <= m.cap {
            m.cap
        } else if m.elems.len() + bound <= usize::MAX {
            m.elems.len() + bound
        } else {
            usize::MAX as nat
        },
        m.extend(0, values) == m.push_all(values),
{
    law_push_all_one_more(m.reserve(bound), values, value);
    law_push_all_appends(m.reserve(bound), values);
}

/// Which pushes a vector takes: all that fit its capacity; any that a `usize` can count where twice
/// its capacity is above its inline size, which is so of every vector that was never given a
/// capacity below it; and, of a vector without any room, one, or any where its inline region holds
/// no more than one.
pub proof fn law_which_pushes_are_taken<T>(m: Model<T>, n: nat)
    requires
        m.elems.len() <= m.cap,
        m.cap <= usize::MAX,
        m.inline_size <= usize::MAX,
        m.elems.len() + n <= usize::MAX,
    ensures
        m.elems.len() + n <= m.cap ==> m.may_push(n),
        m.cap > 0 && 2 * m.cap > m.inline_size && m.inline_size < usize::MAX ==> m.may_push(n),
        m.cap >= m.inline_size ==> m.may_push(n),
        m.cap == 0 && (n <= 1 || m.inline_size <= 1) ==> m.may_push(n),
        0 < 2 * m.cap <= m.inline_size && m.elems.len() + n > m.cap ==> !m.may_push(n),
        m.cap == 0 && n > 1 && m.inline_size > 1 ==> !m.may_push(n),
{
}

/// Which extensions a vector takes: where the bound asks for no more room, those that may be
/// pushed; where it does, that room must keep the elements, and is in the way of no pushes then.
pub proof fn law_which_extensions_are_taken<T>(m: Model<T>, bound: nat, n: nat)
    requires
        m.elems.len() <= m.cap,
        m.cap <= usize::MAX,
        m.inline_size <= usize::MAX,
        m.elems.len() + n <= usize::MAX,
    ensures
        m.elems.len() + bound <= m.cap ==> (m.may_extend(bound, n) <==> m.may_push(n)),
        m.cap < m.elems.len() + bound <= usize::MAX && m.elems.len() + bound > m.inline_size
            ==> m.may_extend(bound, n),
        m.cap < m.elems.len() + bound <= m.inline_size && m.elems.len() > 0 ==> !m.may_extend(
            bound,
            n,
        ),
{
}

/// Elements that have a size are all walked over, in order, however many they are; of those
/// without size none is.
pub proof fn law_all_sized_elements_are_walked<T>(elems: Seq<T>)
    ensures
        vstd::layout::size_of::<T>() != 0 ==> crate::model::walked(elems) == elems,
        vstd::layout::size_of::<T>() == 0 ==> crate::model::walked(elems).len() == 0,
{
}

/// An iterator by reference gives a reference to each element that is still to come, in order.
pub proof fn law_references_to_all_the_rest<'a, T>(iter: SmallVecIterator<'a, T>)
    ensures
        vstd::std_specs::iter::IteratorSpec::obeys_prophetic_iter_laws(&iter),
        vstd::std_specs::iter::IteratorSpec::remaining(&iter).len() == iter.rest().len(),
        forall|i: int|
            0 <= i < iter.rest().len() ==> *(
            #[trigger] vstd::std_specs::iter::IteratorSpec::remaining(&iter)[i]) == iter.rest()[i],
{
}

/// An iterator by value gives the elements that are still to come, in order.
pub proof fn law_all_the_rest_is_given<'a, T>(iter: SmallVecMoveIterator<'a, T>)
    ensures
        vstd::std_specs::iter::IteratorSpec::obeys_prophetic_iter_laws(&iter),
        vstd::std_specs::iter::IteratorSpec::remaining(&iter) == iter.rest(),
{
}

/// The stored capacity alone tells where the elements are: above the inline size they are what the
/// heap block holds, otherwise they are what the inline region holds. The vector has spilled in
/// the first case and in no other.
pub proof fn law_elements_are_in_one_place<T, V: SmallVecPrivate<T>>(vec: V)
    ensures
        vec.is_spilled() <==> vec.raw_cap() > V::inline_slots(),
        vec.is_spilled() <==> vec.model().spilled(),
        vec.raw_cap() > V::inline_slots() ==> vec.elems() == vec.heap_view(),
        vec.raw_cap() <= V::inline_slots() ==> vec.elems() == vec.data_view(),
        vec.model().elems == vec.elems(),
        vec.model().cap == vec.raw_cap(),
        vec.model().inline_size == V::inline_slots(),
{
}

/// The parts of a vector agree exactly where the stored length is the number of the elements in
/// the place that the capacity tells, there is room for them, and the other place is empty.
pub proof fn law_parts_agree<T, V: SmallVecPrivate<T>>(vec: V)
    ensures
        vec.raw_cap() > V::inline_slots() ==> (vec.wf() <==> {
            &&& vec.raw_len() == vec.heap_view().len()
            &&& vec.raw_len() <= vec.raw_cap()
            &&& vec.data_view().len() == 0
        }),
        vec.raw_cap() <= V::inline_slots() ==> (vec.wf() <==> {
            &&& vec.raw_len() == vec.data_view().len()
            &&& vec.raw_len() <= vec.raw_cap()
            &&& vec.heap_view().len() == 0
        }),
{
}

/// After pushes only, a vector that was new holds all of `values` in its inline region where there
/// is room for them, and all of them in its heap block where there is not.
pub proof fn law_pushes_spill_only_when_full<T, V: SmallVecPrivate<T>>(vec: V, values: Seq<T>)
    requires
        values.len() <= usize::MAX,
        vec.model() == Model::new(V::inline_slots() as nat).push_all(values),
    ensures
        values.len() <= V::inline_slots() ==> vec.data_view() == values && vec.raw_cap()
            == V::inline_slots(),
        values.len() > V::inline_slots() ==> vec.heap_view() == values && values.len()
            <= vec.raw_cap(),
{
    law_elements_are_in_one_place(vec);
    law_inline_until_full(V::inline_slots() as nat, values);
    law_capacity_never_shrinks(Model::new(V::inline_slots() as nat), values);
    law_pushes_leave_room(Model::new(V::inline_slots() as nat), values);
    assert(Seq::<T>::empty() + values == values);
}

/// There is always room for what was pushed.
pub proof fn law_pushes_leave_room<T>(m: Model<T>, values: Seq<T>)
    requires
        m.elems.len() <= m.cap,
        m.elems.len() + values.len() <= usize::MAX,
    ensures
        m.elems.len() + values.len() <= m.push_all(values).cap,
    decreases values.len(),
{
    if values.len() > 0 {
        law_pushes_leave_room(m, values.drop_last());
    }
}

/// A small vector of a given size has that inline size, and seen as a growable vector it holds its
/// elements.
pub proof fn law_sizes_are_inline_sizes<T, const N: usize>(vec: SmallVecN<T, N>, n: nat)
    ensures
        <SmallVecN<T, N> as SmallVecPrivate<T>>::inline_slots() == N,
        vec.vec_view() == vec.elems(),
        vec.vec_wf() <==> vec.wf(),
        vec.vec_may_push(n) <==> vec.model().may_push(n),
{
}

/// Each of the named sizes is the inline size of the vectors that have it in their name.
pub proof fn law_names_tell_inline_sizes<T>()
    ensures
        <SmallVec1<T> as SmallVecPrivate<T>>::inline_slots() == 1,
        <SmallVec2<T> as SmallVecPrivate<T>>::inline_slots() == 2,
        <SmallVec4<T> as SmallVecPrivate<T>>::inline_slots() == 4,
        <SmallVec8<T> as SmallVecPrivate<T>>::inline_slots() == 8,
        <SmallVec16<T> as SmallVecPrivate<T>>::inline_slots() == 16,
        <SmallVec24<T> as SmallVecPrivate<T>>::inline_slots() == 24,
        <SmallVec32<T> as SmallVecPrivate<T>>::inline_slots() == 32,
{
}

/// A `Vec` seen as a growable vector holds its elements, and takes as many more as a `usize` can
/// count.
pub proof fn law_vec_holds_its_elements<T>(vec: Vec<T>, n: nat)
    ensures
        vec.vec_view() == vec@,
        vec.vec_wf(),
        vec.vec_may_push(n) <==> vec@.len() + n <= usize::MAX,
{
}

/// What lies behind a position of a sequence is reached from that position, and behind the end
/// nothing is.
pub proof fn law_reach_stops_at_the_end<T>(s: Seq<T>, index: int)
    requires
        0 <= index,
    ensures
        index <= s.len() ==> crate::model::reach(s, index) == index,
        index > s.len() ==> crate::model::reach(s, index) == s.len(),
{
}

/// Pushing `values` and then `value` is pushing `values` with `value` behind them.
pub proof fn law_push_all_one_more<T>(m: Model<T>, values: Seq<T>, value: T)
    ensures
        m.push_all(values).push(value) == m.push_all(values.push(value)),
{
    assert(m.push_all(values).push(value) =~= m.push_all(values.push(value)));
}

/// Pushing `first` and then `second` is pushing both in one go.
pub proof fn law_push_all_in_two_goes<T>(m: Model<T>, first: Seq<T>, second: Seq<T>)
    ensures
        m.push_all(first).push_all(second) == m.push_all(first + second),
    decreases second.len(),
{
    if second.len() == 0 {
        assert(first + second == first);
        assert(m.push_all(first).push_all(second) =~= m.push_all(first));
    } else {
        let most = second.drop_last();
        law_push_all_in_two_goes(m, first, most);
        law_push_all_one_more(m.push_all(first), most, second.last());
        law_push_all_one_more(m, first + most, second.last());
        assert(most.push(second.last()) == second);
        assert((first + most).push(second.last()) == first + second);
    }
}

/// What is pushed is read back at the end, and what was there before stays where it was.
pub proof fn law_push_reads_back<T>(m: Model<T>, value: T)
    ensures
        m.push(value).elems.len() == m.elems.len() + 1,
        m.push(value).elems[m.elems.len() as int] == value,
        forall|i: int| 0 <= i < m.elems.len() ==> m.push(value).elems[i] == m.elems[i],
{
}

/// A pop after a push gives the pushed element and leaves the elements of before the push; the
/// capacity stays what the push made it.
pub proof fn law_pop_undoes_push<T>(m: Model<T>, value: T)
    ensures
        m.push(value).last() == Some(value),
        m.push(value).pop().elems == m.elems,
        m.push(value).pop().cap == m.push(value).cap,
{
    assert(m.push(value).pop().elems =~= m.elems);
}

/// Pushing keeps a model well formed, and never shrinks the capacity.
pub proof fn law_capacity_never_shrinks<T>(m: Model<T>, values: Seq<T>)
    requires
        m.wf(),
        m.elems.len() + values.len() <= usize::MAX,
    ensures
        m.push_all(values).wf(),
        m.push_all(values).cap >= m.cap,
    decreases values.len(),
{
    if values.len() > 0 {
        law_capacity_never_shrinks(m, values.drop_last());
    }
}

/// Where there is room for all of `values`, pushing them leaves the capacity alone.
pub proof fn law_room_is_used<T>(m: Model<T>, values: Seq<T>)
    requires
        m.elems.len() + values.len() <= m.cap,
    ensures
        m.push_all(values).cap == m.cap,
    decreases values.len(),
{
    if values.len() > 0 {
        law_room_is_used(m, values.drop_last());
    }
}

/// The elements of a vector that is only pushed to are in the inline region exactly as long as
/// they fit there, and in the heap block from then on.
pub proof fn law_inline_until_full<T>(inline_size: nat, values: Seq<T>)
    requires
        inline_size <= usize::MAX,
        values.len() <= usize::MAX,
    ensures
        Model::new(inline_size).push_all(values).spilled() <==> values.len() > inline_size,
        values.len() <= inline_size ==> Model::new(inline_size).push_all(values).cap == inline_size,
{
    let fresh = Model::<T>::new(inline_size);
    if values.len() <= inline_size {
        law_room_is_used(fresh, values);
    } else {
        law_capacity_never_shrinks(fresh, values);
    }
}

/// Once the elements are in the heap block, pushing and popping leave them there.
pub proof fn law_spilled_stays_spilled<T>(m: Model<T>, values: Seq<T>)
    requires
        m.wf(),
        m.spilled(),
        m.elems.len() + values.len() <= usize::MAX,
    ensures
        m.push_all(values).spilled(),
        m.pop().spilled(),
{
    law_capacity_never_shrinks(m, values);
}

/// A vector whose capacity is not below its inline size takes as many pushes as a `usize` can
/// count, and stays such a vector.
pub proof fn law_pushes_are_taken<T>(m: Model<T>, values: Seq<T>)
    requires
        m.wf(),
        m.cap >= m.inline_size,
        m.elems.len() + values.len() <= usize::MAX,
    ensures
        m.may_push(values.len()),
        m.push_all(values).cap >= m.inline_size,
        m.pop().cap >= m.inline_size,
{
    law_capacity_never_shrinks(m, values);
}

/// The capacity is not below the inline size of a new vector, of one that was cleared, of one that
/// has spilled, and of one that was grown while it held elements.
pub proof fn law_capacity_covers_inline_region<T>(m: Model<T>, new_cap: nat)
    ensures
        Model::<T>::new(m.inline_size).cap >= m.inline_size,
        m.cleared().cap >= m.inline_size,
        m.spilled() ==> m.cap >= m.inline_size,
        m.may_grow(new_cap) && m.elems.len() > 0 ==> m.grow(new_cap).cap >= m.inline_size,
{
}

/// A vector whose capacity is not below its inline size takes the items of an iterator whatever
/// bound the iterator gives for their number.
pub proof fn law_extensions_are_taken<T>(m: Model<T>, bound: nat, n: nat)
    requires
        m.wf(),
        m.cap >= m.inline_size,
        m.elems.len() + n <= usize::MAX,
    ensures
        m.may_extend(bound, n),
{
}

/// What may be pushed at once may be pushed one by one.
pub proof fn law_pushes_are_taken_one_by_one<T>(m: Model<T>, n: nat, value: T)
    requires
        m.wf(),
        m.may_push((n + 1) as nat),
    ensures
        m.may_push(1),
        m.push(value).may_push(n),
{
}

/// Growing keeps the elements, and makes the room that it is asked for: elements that fit it are
/// pushed without a further change of the capacity.
pub proof fn law_grow_makes_room<T>(m: Model<T>, new_cap: nat, values: Seq<T>)
    requires
        m.elems.len() + values.len() <= new_cap,
    ensures
        m.grow(new_cap).elems == m.elems,
        m.grow(new_cap).push_all(values).elems == m.elems + values,
        m.grow(new_cap).push_all(values).cap == new_cap,
{
    law_room_is_used(m.grow(new_cap), values);
}

/// A vector that is only pushed to has room for its inline region, or for at most twice as many
/// elements as it holds.
pub proof fn law_capacity_is_bounded<T>(inline_size: nat, values: Seq<T>)
    ensures
        Model::new(inline_size).push_all(values).cap <= inline_size || Model::new(
            inline_size,
        ).push_all(values).cap <= 2 * values.len(),
    decreases values.len(),
{
    if values.len() > 0 {
        law_capacity_is_bounded(inline_size, values.drop_last());
    }
}

/// Pushing leaves the capacity at what it was, or at no more than twice the number of elements.
pub proof fn law_capacity_at_most_doubles<T>(m: Model<T>, values: Seq<T>)
    ensures
        m.push_all(values).cap == m.cap || m.push_all(values).cap <= 2 * (m.elems.len()
            + values.len()),
    decreases values.len(),
{
    if values.len() > 0 {
        law_capacity_at_most_doubles(m, values.drop_last());
    }
}

/// A bound that does not promise too much leaves the elements of a new vector in the inline region
/// exactly as long as they fit there, and never takes more room than twice their number.
pub proof fn law_honest_bound_stays_inline<T>(inline_size: nat, bound: nat, values: Seq<T>)
    requires
        inline_size <= usize::MAX,
        values.len() <= usize::MAX,
    ensures
        bound <= values.len() ==> {
            let cap = Model::new(inline_size).extend(bound, values).cap;
            &&& cap > inline_size <==> values.len() > inline_size
            &&& values.len() <= inline_size ==> cap == inline_size
            &&& values.len() > inline_size ==> cap <= 2 * values.len()
        },
{
    let roomy = Model::<T>::new(inline_size).reserve(bound);
    law_capacity_never_shrinks(roomy, values);
    law_capacity_at_most_doubles(roomy, values);
    lemma_room_is_used_where_it_suffices(roomy, values);
}

/// Where there is room for all of `values`, a bound that does not promise too much leaves the
/// capacity, and with it the place of the elements, alone.
pub proof fn law_honest_bound_uses_room<T>(m: Model<T>, bound: nat, values: Seq<T>)
    requires
        m.cap <= usize::MAX,
    ensures
        bound <= values.len() && m.elems.len() + values.len() <= m.cap ==> m.extend(
            bound,
            values,
        ).cap == m.cap,
{
    lemma_room_is_used_where_it_suffices(m, values);
}

/// [`law_room_is_used`] with its condition as a premise of the result.
pub(crate) proof fn lemma_room_is_used_where_it_suffices<T>(m: Model<T>, values: Seq<T>)
    ensures
        m.elems.len() + values.len() <= m.cap ==> m.push_all(values).cap == m.cap,
{
    if m.elems.len() + values.len() <= m.cap {
        law_room_is_used(m, values);
    }
}

/// How many elements an iterator says it has makes no difference to the elements that arrive.
pub proof fn law_bound_is_only_a_hint<T>(m: Model<T>, bound: nat, values: Seq<T>)
    ensures
        m.extend(bound, values).elems == m.elems + values,
        m.extend(bound, values).inline_size == m.inline_size,
{
}

/// With an exact bound, extending takes the capacity that the elements need and not more.
pub proof fn law_exact_bound_takes_exact_room<T>(m: Model<T>, values: Seq<T>)
    requires
        m.wf(),
        m.elems.len() + values.len() <= usize::MAX,
    ensures
        m.extend(values.len(), values).cap == if m.elems.len() + values.len() > m.cap {
            m.elems.len() + values.len()
        } else {
            m.cap
        },
{
    law_room_is_used(m.reserve(values.len()), values);
}

/// Moving all the elements of `from` to the end of `to` loses none, adds none, and keeps their
/// order; what is left behind is as good as new.
pub proof fn law_moving_all_keeps_all<T>(to: Model<T>, from: Model<T>)
    ensures
        to.push_all(from.elems).elems == to.elems + from.elems,
        Model::new(to.inline_size).push_all(from.elems).elems == from.elems,
        from.cleared() == Model::<T>::new(from.inline_size),
        !from.cleared().spilled(),
{
    assert(Seq::<T>::empty() + from.elems == from.elems);
}

/// Where cloning an element gives an equal one, cloning all the elements of a vector gives equal
/// ones in the same order.
pub proof fn law_faithful_clones_are_equal<T: Clone>(elems: Seq<T>, clones: Seq<T>)
    requires
        clones.len() == elems.len(),
        forall|i: int|
            0 <= i < elems.len() ==> vstd::pervasive::strictly_cloned(
                elems[i],
                #[trigger] clones[i],
            ),
        forall|a: T, b: T| #[trigger] vstd::pervasive::strictly_cloned(a, b) ==> a == b,
    ensures
        clones == elems,
{
    assert(clones =~= elems);
}

/// What is written through a slice is read back from the same positions; all the others keep what
/// they had.
pub proof fn law_written_slice_reads_back<T>(s: Seq<T>, start: int, end: int, w: Seq<T>)
    requires
        0 <= start <= end <= s.len(),
        w.len() == end - start,
    ensures
        crate::model::overwrite(s, start, end, w).len() == s.len(),
        crate::model::overwrite(s, start, end, w).subrange(start, end) == w,
        forall|i: int|
            0 <= i < s.len() && !(start <= i < end) ==> crate::model::overwrite(s, start, end, w)[i] == s[i],
{
    assert(crate::model::overwrite(s, start, end, w).subrange(start, end) =~= w);
}

/// One step of an iterator that can go both ways: from the front, or from the back.
pub enum Step {
    Front,
    Back,
}

/// What an iterator that had `rest` to give still has to give after `steps`.
pub open spec fn rest_after<T>(rest: Seq<T>, steps: Seq<Step>) -> Seq<T>
    decreases steps.len(),
{
    if steps.len() == 0 {
        rest
    } else {
        let before = rest_after(rest, steps.drop_last());
        match steps.last() {
            Step::Front => before.drop_first(),
            Step::Back => before.drop_last(),
        }
    }
}

/// How many of `steps` are from the front.
pub open spec fn fronts(steps: Seq<Step>) -> nat
    decreases steps.len(),
{
    if steps.len() == 0 {
        0
    } else {
        fronts(steps.drop_last()) + match steps.last() {
            Step::Front => 1nat,
            Step::Back => 0nat,
        }
    }
}

/// In whatever order the steps from the front and from the back come, each takes the next element
/// at its end: nothing is given twice or left out, and what lies between the two ends is still to
/// come.
pub proof fn law_both_ends_meet<T>(rest: Seq<T>, steps: Seq<Step>)
    requires
        steps.len() <= rest.len(),
    ensures
        fronts(steps) <= steps.len(),
        rest_after(rest, steps) == rest.subrange(
            fronts(steps) as int,
            rest.len() - (steps.len() - fronts(steps)),
        ),
        steps.len() < rest.len() ==> {
            &&& rest_after(rest, steps).first() == rest[fronts(steps) as int]
            &&& rest_after(rest, steps).last() == rest[rest.len() - 1 - (steps.len() - fronts(
                steps,
            ))]
        },
    decreases steps.len(),
{
    if steps.len() == 0 {
        assert(rest.subrange(0, rest.len() as int) == rest);
    } else {
        law_both_ends_meet(rest, steps.drop_last());
    }
}

} // verus!
