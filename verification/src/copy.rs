//! Low-level copy helpers for slices of trivially copyable elements: the
//! [`SliceExt`] trait.

use crate::OutOfBounds;
use vstd::prelude::*;

verus! {

/// The contents of a buffer after copying `len` elements from offset `src`
/// to offset `dst` within it, as if the source range were fully read before
/// any element is written.
pub open spec fn copied_within<T>(s: Seq<T>, src: int, dst: int, len: int) -> Seq<T> {
    Seq::new(s.len(), |i: int| if dst <= i < dst + len { s[src + (i - dst)] } else { s[i] })
}

/// Bulk copies for slices whose element type has trivial copy semantics.
pub trait SliceExt<T: Copy>: View<V = Seq<T>> {
    /// Copies the lesser of `self.len()` and `src.len()` elements from `src`
    /// into the front of `self`, returning the amount copied. Never errors:
    /// the count is clamped to the shorter length.
    fn copy_from(&mut self, src: &[T]) -> (r: usize)
        ensures
            r == vstd::math::min(old(self)@.len() as int, src@.len() as int),
            final(self)@.len() == old(self)@.len(),
            forall|i: int| 0 <= i < r ==> final(self)@[i] == src@[i],
            forall|i: int| r <= i < old(self)@.len() ==> final(self)@[i] == old(self)@[i],
    ;

    /// Copies `len` elements from `[src, src + len)` to `[dst, dst + len)`
    /// within `self`. The ranges may overlap: the result is as if the source
    /// range were fully read first, then written.
    fn copy_inner(&mut self, src: usize, dst: usize, len: usize) -> (r: Result<
        (),
        OutOfBounds,
    >)
        ensures
            r is Ok <==> src + len <= old(self)@.len() && dst + len <= old(self)@.len(),
            r is Ok ==> final(self)@ == copied_within(
                old(self)@,
                src as int,
                dst as int,
                len as int,
            ),
            r is Err ==> final(self)@ == old(self)@,
    ;
}

impl<T: Copy> SliceExt<T> for [T] {
    fn copy_from(&mut self, src: &[T]) -> (r: usize) {
        let n: usize = if self.len() <= src.len() {
            self.len()
        } else {
            src.len()
        };
        let mut i: usize = 0;
        while i < n
            invariant
                i <= n,
                n == vstd::math::min(old(self)@.len() as int, src@.len() as int),
                self@.len() == old(self)@.len(),
                forall|j: int| 0 <= j < i ==> self@[j] == src@[j],
                forall|j: int| i <= j < self@.len() ==> self@[j] == old(self)@[j],
            decreases n - i,
        {
            self[i] = *vstd::slice::slice_index_get(src, i);
            i += 1;
        }
        n
    }

    fn copy_inner(&mut self, src: usize, dst: usize, len: usize) -> (r: Result<
        (),
        OutOfBounds,
    >) {
        if len > self.len() || src > self.len() - len || dst > self.len() - len {
            return Err(OutOfBounds);
        }
        if dst <= src {
            let mut i: usize = 0;
            while i < len
                invariant
                    i <= len,
                    dst <= src,
                    self@.len() <= usize::MAX,
                    src + len <= self@.len(),
                    dst + len <= self@.len(),
                    self@.len() == old(self)@.len(),
                    forall|j: int|
                        0 <= j < self@.len() && !(dst <= j < dst + i) ==> self@[j] == old(
                            self,
                        )@[j],
                    forall|j: int| dst <= j < dst + i ==> self@[j] == old(self)@[src + (j - dst)],
                decreases len - i,
            {
                let v = *vstd::slice::slice_index_get(self, src + i);
                self[dst + i] = v;
                i += 1;
            }
        } else {
            let mut i: usize = len;
            while i > 0
                invariant
                    i <= len,
                    dst > src,
                    self@.len() <= usize::MAX,
                    src + len <= self@.len(),
                    dst + len <= self@.len(),
                    self@.len() == old(self)@.len(),
                    forall|j: int|
                        0 <= j < self@.len() && !(dst + i <= j < dst + len) ==> self@[j] == old(
                            self,
                        )@[j],
                    forall|j: int|
                        dst + i <= j < dst + len ==> self@[j] == old(self)@[src + (j - dst)],
                decreases i,
            {
                i -= 1;
                let v = *vstd::slice::slice_index_get(self, src + i);
                self[dst + i] = v;
            }
        }
        proof {
            assert(self@ =~= copied_within(old(self)@, src as int, dst as int, len as int));
        }
        Ok(())
    }
}

} // verus!
