# smallvec

Small vectors in various sizes: they hold a certain number of elements in an inline region and
fall back to a heap block for larger allocations. Every operation has a contract that Verus
proves.

- `src/model.rs`: the mathematical model, in which the contracts are written
- `src/private.rs`: the parts of a small vector, and when they agree
- `src/small_vec.rs`: the interface of all small vectors
- `src/sizes.rs`: the small vectors themselves, `SmallVec1` to `SmallVec32`
- `src/iter.rs`: the iterators
- `src/vec_like.rs`: what small vectors and `Vec` have in common
- `src/laws.rs`: what holds of operations taken together
- `src/std_calls.rs`: the calls into the standard library whose contracts are trusted
- `app/`: impls of traits of the standard library that are outside the verified part

The code is safe Rust throughout. The inline region and the heap block are each a `Vec`; the
invariant `wf` keeps all the elements in one of them, and no more in the inline region than its
size.
