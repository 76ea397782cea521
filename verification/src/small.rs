//! The small-inline-capacity variant of the owning buffer.
//!
//! [`SmallByteBuf`] owns a growable run of bytes kept in `smallvec`'s
//! `SmallVec`, which stores a small number of elements inline before
//! spilling to the heap. It supports the same [`VecExt`] growth contract as
//! `Vec`.

use crate::grow::{VecExt, Zeroable};
use vstd::prelude::*;

verus! {

/// An owning growable byte buffer with a small inline capacity, backed by
/// `smallvec::SmallVec`.
#[verifier::external_body]
pub struct SmallByteBuf {
    inner: smallvec::SmallVec<[u8; 8]>,
}

/// The elements a [`SmallByteBuf`] holds, in order.
pub uninterp spec fn small_elems(v: &SmallByteBuf) -> Seq<u8>;

/// Relies on smallvec's `SmallVec::new`: the new vector is empty.
#[verifier::external_body]
fn small_new() -> (r: SmallByteBuf)
    ensures
        small_elems(&r) =~= Seq::<u8>::empty(),
{
    SmallByteBuf { inner: smallvec::SmallVec::new() }
}

/// Relies on smallvec's `SmallVec::len`: the number of stored elements.
#[verifier::external_body]
fn small_len(v: &SmallByteBuf) -> (r: usize)
    ensures
        r == small_elems(v).len(),
{
    v.inner.len()
}

/// Relies on smallvec's `SmallVec::push`: it appends the value at the end
/// and keeps everything already stored.
#[verifier::external_body]
fn small_push(v: &mut SmallByteBuf, x: u8)
    requires
        small_elems(old(v)).len() < usize::MAX,
    ensures
        small_elems(final(v)) == small_elems(old(v)).push(x),
{
    v.inner.push(x);
}

/// Relies on smallvec's `SmallVec::truncate`: it keeps the first `len`
/// elements and drops the rest, and does nothing when `len` is not below
/// the current length.
#[verifier::external_body]
fn small_truncate(v: &mut SmallByteBuf, len: usize)
    ensures
        len <= small_elems(old(v)).len() ==> small_elems(final(v)) == small_elems(
            old(v),
        ).subrange(0, len as int),
        len > small_elems(old(v)).len() ==> small_elems(final(v)) == small_elems(old(v)),
{
    v.inner.truncate(len);
}

/// Relies on smallvec's `SmallVec::reserve_exact`: it only changes capacity,
/// never the stored elements or the length.
#[verifier::external_body]
fn small_reserve_exact(v: &mut SmallByteBuf, additional: usize)
    requires
        small_elems(old(v)).len() + additional <= usize::MAX,
    ensures
        small_elems(final(v)) == small_elems(old(v)),
{
    v.inner.reserve_exact(additional);
}

/// Relies on smallvec's `SmallVec::as_slice`: the slice holds exactly the
/// stored elements.
#[verifier::external_body]
fn small_as_slice(v: &SmallByteBuf) -> (r: &[u8])
    ensures
        r@ == small_elems(v),
{
    v.inner.as_slice()
}

impl SmallByteBuf {
    /// Builds an empty buffer.
    pub fn new() -> (r: Self)
        ensures
            small_elems(&r).len() == 0,
    {
        small_new()
    }

    /// The number of bytes the buffer holds.
    pub fn len(&self) -> (r: usize)
        ensures
            r == small_elems(self).len(),
    {
        small_len(self)
    }

    /// Appends a byte at the end of the buffer.
    pub fn push(&mut self, x: u8)
        requires
            small_elems(old(self)).len() < usize::MAX,
        ensures
            small_elems(final(self)) == small_elems(old(self)).push(x),
    {
        small_push(self, x)
    }

    /// Copies the buffer's bytes out into a plain vector.
    pub fn contents(&self) -> (r: Vec<u8>)
        ensures
            r@ == small_elems(self),
    {
        let s = small_as_slice(self);
        let mut r: Vec<u8> = Vec::new();
        let mut i: usize = 0;
        while i < s.len()
            invariant
                i <= s@.len(),
                r@ == s@.subrange(0, i as int),
            decreases s@.len() - i,
        {
            r.push(*vstd::slice::slice_index_get(s, i));
            i += 1;
            proof {
                assert(r@ =~= s@.subrange(0, i as int));
            }
        }
        proof {
            assert(r@ =~= s@);
        }
        r
    }
}

impl VecExt<u8> for SmallByteBuf {
    open spec fn buf(&self) -> Seq<u8> {
        small_elems(self)
    }

    fn uninitialized_resize(&mut self, new_len: usize) {
        let len: usize = small_len(self);
        if new_len > len {
            small_reserve_exact(self, new_len - len);
            let mut i: usize = len;
            while i < new_len
                invariant
                    small_elems(old(self)).len() < new_len,
                    i == small_elems(self).len(),
                    small_elems(old(self)).len() <= i <= new_len,
                    small_elems(self).subrange(0, small_elems(old(self)).len() as int)
                        == small_elems(old(self)),
                decreases new_len - i,
            {
                small_push(self, u8::zero_value());
                i += 1;
            }
        } else {
            small_truncate(self, new_len);
        }
    }

    fn zeroed_resize(&mut self, new_len: usize) {
        let len: usize = small_len(self);
        if new_len > len {
            small_reserve_exact(self, new_len - len);
            let mut i: usize = len;
            while i < new_len
                invariant
                    small_elems(old(self)).len() < new_len,
                    i == small_elems(self).len(),
                    small_elems(old(self)).len() <= i <= new_len,
                    small_elems(self).subrange(0, small_elems(old(self)).len() as int)
                        == small_elems(old(self)),
                    forall|j: int|
                        small_elems(old(self)).len() <= j < i ==> small_elems(self)[j] == 0,
                decreases new_len - i,
            {
                small_push(self, u8::zero_value());
                i += 1;
            }
        } else {
            small_truncate(self, new_len);
        }
    }
}

} // verus!
