//! In-place narrowing of slice views and growth of owned buffers.
//!
//! The crate offers two independent capability sets:
//!
//! * [`ResizeSlice`]: shrink a view of a contiguous run of elements to a
//!   sub-range, without touching the elements themselves. [`SliceRef`] is the
//!   read-only view, [`SliceMut`] the mutable one; both narrow by pure
//!   arithmetic on a (base, length) pair.
//! * [`VecExt`]: change the logical length of an owning growable buffer,
//!   either without a stated value for the newly exposed slots
//!   (`uninitialized_resize`) or with an explicit zero fill (`zeroed_resize`).
//!
//! Two low-level copy helpers, [`SliceExt::copy_from`] and
//! [`SliceExt::copy_inner`], support bulk movement of elements with trivial
//! copy semantics.

use vstd::prelude::*;

pub mod copy;
pub mod grow;
pub mod narrow;
pub mod small;

pub use copy::SliceExt;
pub use grow::{VecExt, Zeroable};
pub use narrow::{ResizeSlice, SliceMut, SliceRef};
pub use small::SmallByteBuf;

verus! {

/// Error raised when a requested range does not fit in the current bounds.
///
/// Every operation that can raise it leaves its receiver unmodified when it
/// does.
#[derive(Clone, Copy, Debug, PartialEq, Eq, Structural)]
pub struct OutOfBounds;

} // verus!
