//! Growth of owning buffers: the [`VecExt`] trait and the [`Zeroable`]
//! element marker it relies on.

use vstd::prelude::*;

verus! {

/// Element types with a designated all-zero value.
///
/// The zero value is what [`VecExt::zeroed_resize`] writes into newly exposed
/// slots, and what the safe growth path uses as a placeholder where the
/// contract leaves the new contents unspecified.
pub trait Zeroable: Copy {
    /// Whether this value is the type's zero.
    spec fn is_zero(self) -> bool;

    /// The zero value of the type.
    fn zero_value() -> (r: Self)
        ensures
            r.is_zero(),
    ;
}

impl Zeroable for u8 {
    open spec fn is_zero(self) -> bool {
        self == 0
    }

    fn zero_value() -> (r: Self) {
        0
    }
}

impl Zeroable for u16 {
    open spec fn is_zero(self) -> bool {
        self == 0
    }

    fn zero_value() -> (r: Self) {
        0
    }
}

impl Zeroable for u32 {
    open spec fn is_zero(self) -> bool {
        self == 0
    }

    fn zero_value() -> (r: Self) {
        0
    }
}

impl Zeroable for u64 {
    open spec fn is_zero(self) -> bool {
        self == 0
    }

    fn zero_value() -> (r: Self) {
        0
    }
}

impl Zeroable for usize {
    open spec fn is_zero(self) -> bool {
        self == 0
    }

    fn zero_value() -> (r: Self) {
        0
    }
}

impl Zeroable for i32 {
    open spec fn is_zero(self) -> bool {
        self == 0
    }

    fn zero_value() -> (r: Self) {
        0
    }
}

impl Zeroable for i64 {
    open spec fn is_zero(self) -> bool {
        self == 0
    }

    fn zero_value() -> (r: Self) {
        0
    }
}

/// Resizing of an owning growable buffer without the usual per-element
/// initialization contract.
///
/// Both operations set the buffer's logical length to `new_len`, keeping
/// every element below `min(old_len, new_len)` unchanged. They differ in
/// what they promise of slots at `[old_len, new_len)` after growth:
/// `uninitialized_resize` promises nothing of them, `zeroed_resize` makes
/// them zero.
pub trait VecExt<T: Zeroable> {
    /// The buffer's logically valid elements, in order.
    spec fn buf(&self) -> Seq<T>;

    /// Resizes the buffer to `new_len` elements. The contents of slots that
    /// the growth newly exposes are left unspecified: callers must write a
    /// slot before relying on what it holds.
    fn uninitialized_resize(&mut self, new_len: usize)
        ensures
            final(self).buf().len() == new_len,
            forall|i: int|
                0 <= i < new_len && i < old(self).buf().len() ==> final(self).buf()[i] == old(
                    self,
                ).buf()[i],
    ;

    /// Resizes the buffer to `new_len` elements, filling every slot that the
    /// growth newly exposes with the element type's zero.
    fn zeroed_resize(&mut self, new_len: usize)
        ensures
            final(self).buf().len() == new_len,
            forall|i: int|
                0 <= i < new_len && i < old(self).buf().len() ==> final(self).buf()[i] == old(
                    self,
                ).buf()[i],
            forall|i: int|
                old(self).buf().len() <= i < new_len ==> final(self).buf()[i].is_zero(),
    ;
}

impl<T: Zeroable> VecExt<T> for Vec<T> {
    open spec fn buf(&self) -> Seq<T> {
        self@
    }

    fn uninitialized_resize(&mut self, new_len: usize) {
        let len: usize = self.len();
        if new_len > len {
            vec_reserve_exact(self, new_len - len);
            while self.len() < new_len
                invariant
                    old(self)@.len() < new_len,
                    old(self)@.len() <= self@.len() <= new_len,
                    self@.subrange(0, old(self)@.len() as int) == old(self)@,
                decreases new_len - self@.len(),
            {
                self.push(T::zero_value());
            }
        } else {
            self.truncate(new_len);
        }
    }

    fn zeroed_resize(&mut self, new_len: usize) {
        let len: usize = self.len();
        if new_len > len {
            vec_reserve_exact(self, new_len - len);
            while self.len() < new_len
                invariant
                    old(self)@.len() < new_len,
                    old(self)@.len() <= self@.len() <= new_len,
                    self@.subrange(0, old(self)@.len() as int) == old(self)@,
                    forall|i: int|
                        old(self)@.len() <= i < self@.len() ==> self@[i].is_zero(),
                decreases new_len - self@.len(),
            {
                self.push(T::zero_value());
            }
        } else {
            self.truncate(new_len);
        }
    }
}

/// Relies on std's `Vec::reserve_exact`: it only changes capacity, never the
/// stored elements or the length.
#[verifier::external_body]
fn vec_reserve_exact<T>(v: &mut Vec<T>, additional: usize)
    ensures
        final(v)@ == old(v)@,
{
    v.reserve_exact(additional);
}

} // verus!
