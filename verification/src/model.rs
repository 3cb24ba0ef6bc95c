//! The mathematical model of a small vector.

use vstd::prelude::*;

verus! {

/// What a small vector is, seen from outside: the elements that it holds, the number of elements
/// for which it has room, and the number of elements that its inline region can hold.
#[verifier::ext_equal]
pub struct Model<T> {
    pub elems: Seq<T>,
    pub cap: nat,
    pub inline_size: nat,
}

/// The capacity that a full vector of capacity `cap` grows to when one more element is pushed:
/// twice as much, at least one, and no more than a `usize` can count.
pub open spec fn doubled(cap: nat) -> nat {
    if cap == 0 {
        1
    } else if 2 * cap <= usize::MAX {
        2 * cap
    } else {
        usize::MAX as nat
    }
}

/// The capacity after one push onto a vector of `len` elements and capacity `cap`.
pub open spec fn cap_after_push(len: nat, cap: nat) -> nat {
    if len == cap {
        doubled(cap)
    } else {
        cap
    }
}

/// The capacity after `n` pushes onto a vector of `len` elements and capacity `cap`.
pub open spec fn cap_after(len: nat, cap: nat, n: nat) -> nat
    decreases n,
{
    if n == 0 {
        cap
    } else {
        cap_after_push((len + n - 1) as nat, cap_after(len, cap, (n - 1) as nat))
    }
}

/// `s` with the positions from `start` up to `end` (not included) overwritten by `w`.
pub open spec fn overwrite<T>(s: Seq<T>, start: int, end: int, w: Seq<T>) -> Seq<T> {
    s.take(start) + w + s.skip(end)
}

/// The elements that lie between the first address and the one behind the last: all of them, but
/// none where they have no size, since then the two addresses are the same.
pub open spec fn walked<T>(elems: Seq<T>) -> Seq<T> {
    if vstd::layout::size_of::<T>() == 0 {
        Seq::empty()
    } else {
        elems
    }
}

/// The position from which on `index` reaches into `s`: `index` itself, or the end of `s` where
/// `index` lies behind it.
pub open spec fn reach<T>(s: Seq<T>, index: int) -> int {
    if index <= s.len() {
        index
    } else {
        s.len() as int
    }
}

impl<T> Model<T> {
    /// The model of a vector that was just made, with an inline region for `inline_size` elements.
    pub open spec fn new(inline_size: nat) -> Self {
        Model { elems: Seq::empty(), cap: inline_size, inline_size }
    }

    /// There is room for all the elements, and the numbers fit the machine.
    pub open spec fn wf(self) -> bool {
        &&& self.elems.len() <= self.cap
        &&& self.cap <= usize::MAX
        &&& self.inline_size <= usize::MAX
    }

    /// The elements are in the heap block, not in the inline region.
    pub open spec fn spilled(self) -> bool {
        self.cap > self.inline_size
    }

    /// Growing to `new_cap` keeps the elements: there is room for them, and they go to the heap
    /// block, unless there are none.
    pub open spec fn may_grow(self, new_cap: nat) -> bool {
        &&& self.elems.len() <= new_cap
        &&& new_cap > self.inline_size || self.elems.len() == 0
    }

    /// The capacity becomes `new_cap`; the elements stay.
    pub open spec fn grow(self, new_cap: nat) -> Self {
        Model { cap: new_cap, ..self }
    }

    /// In the course of `n` pushes the vector only grows in ways that keep the elements, and its
    /// length fits the machine. Of a vector that has not been given a capacity below its inline
    /// size, only the length matters.
    pub open spec fn may_push(self, n: nat) -> bool {
        &&& self.elems.len() + n <= usize::MAX
        &&& {
            ||| self.elems.len() + n <= self.cap
            ||| self.cap > 0 && doubled(self.cap) > self.inline_size
            ||| self.cap == 0 && (n <= 1 || self.inline_size <= 1)
        }
    }

    /// One element more, at the end.
    pub open spec fn push(self, value: T) -> Self {
        Model {
            elems: self.elems.push(value),
            cap: cap_after_push(self.elems.len(), self.cap),
            ..self
        }
    }

    /// The elements of `values` pushed one after the other.
    pub open spec fn push_all(self, values: Seq<T>) -> Self {
        Model {
            elems: self.elems + values,
            cap: cap_after(self.elems.len(), self.cap, values.len()),
            ..self
        }
    }

    /// The last element, if there is one.
    pub open spec fn last(self) -> Option<T> {
        if self.elems.len() == 0 {
            None
        } else {
            Some(self.elems.last())
        }
    }

    /// The last element taken away, if there is one.
    pub open spec fn pop(self) -> Self {
        if self.elems.len() == 0 {
            self
        } else {
            Model { elems: self.elems.drop_last(), ..self }
        }
    }

    /// No elements any more, and only the inline region left.
    pub open spec fn cleared(self) -> Self {
        Model::new(self.inline_size)
    }

    /// The length that `additional` elements more would make, no more than a `usize` can count.
    pub open spec fn target_len(self, additional: nat) -> nat {
        if self.elems.len() + additional <= usize::MAX {
            self.elems.len() + additional
        } else {
            usize::MAX as nat
        }
    }

    /// Room made for `additional` elements more, where there is too little: exactly as much as
    /// they need.
    pub open spec fn reserve(self, additional: nat) -> Self {
        if self.target_len(additional) > self.cap {
            self.grow(self.target_len(additional))
        } else {
            self
        }
    }

    /// Making room for `lower_size_bound` elements and then pushing `n` of them only grows the
    /// vector in ways that keep the elements.
    pub open spec fn may_extend(self, lower_size_bound: nat, n: nat) -> bool {
        &&& self.target_len(lower_size_bound) <= self.cap || self.may_grow(
            self.target_len(lower_size_bound),
        )
        &&& self.reserve(lower_size_bound).may_push(n)
    }

    /// Room made for `lower_size_bound` elements, then `values` pushed.
    pub open spec fn extend(self, lower_size_bound: nat, values: Seq<T>) -> Self {
        self.reserve(lower_size_bound).push_all(values)
    }
}

} // verus!
