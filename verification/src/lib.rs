//! Small vectors in various sizes. These hold a certain number of elements in an inline region
//! and fall back to a heap block for larger allocations. Region and block are both kept as
//! vectors of the standard library; the small vector keeps the elements in one of the two, and
//! tells by its capacity in which.
//!
//! [`SmallVec`] is the interface that all sizes share, [`SmallVec1`] to [`SmallVec32`] are the
//! sizes. The mathematical picture of a small vector is [`Model`]: the sequence of its elements,
//! its capacity and the size of its inline region. Every operation says in its contract which
//! model it leaves behind, and [`laws`] holds what follows for operations taken together.

pub mod iter;
pub mod laws;
pub mod model;
pub mod private;
pub mod sizes;
pub mod small_vec;
mod std_calls;
pub mod vec_like;

pub use crate::iter::{SmallVecIterator, SmallVecMoveIterator, SmallVecMutIterator};
pub use crate::model::Model;
pub use crate::private::{SmallVecPrivate, SmallVecState};
pub use crate::sizes::{
    SmallVec1, SmallVec16, SmallVec2, SmallVec24, SmallVec32, SmallVec4, SmallVec8, SmallVecN,
};
pub use crate::small_vec::SmallVec;
pub use crate::vec_like::VecLike;
