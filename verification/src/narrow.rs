//! Narrowing of slice views: the [`ResizeSlice`] trait and its two view
//! types, [`SliceRef`] (read-only) and [`SliceMut`] (mutable).

use crate::OutOfBounds;
use vstd::prelude::*;

verus! {

/// Whether `[start, end)` is a sub-range of a view of length `len`.
pub open spec fn can_narrow(len: int, start: int, end: int) -> bool {
    0 <= start <= end <= len
}

/// Whether a view of length `len` can be narrowed from offset `start`.
pub open spec fn can_narrow_from(len: int, start: int) -> bool {
    0 <= start <= len
}

/// Whether a view of length `len` can be narrowed to length `end`.
pub open spec fn can_narrow_to(len: int, end: int) -> bool {
    0 <= end <= len
}

/// The contents of a view after narrowing to `[start, end)`.
pub open spec fn narrowed<T>(s: Seq<T>, start: int, end: int) -> Seq<T> {
    s.subrange(start, end)
}

/// The contents of a view after narrowing from offset `start` to its end.
pub open spec fn narrowed_from<T>(s: Seq<T>, start: int) -> Seq<T> {
    s.subrange(start, s.len() as int)
}

/// The contents of a view after narrowing to its first `end` elements.
pub open spec fn narrowed_to<T>(s: Seq<T>, end: int) -> Seq<T> {
    s.subrange(0, end)
}

/// In-place narrowing of a view's visible range.
///
/// Narrowing is pure arithmetic on the view's (base, length) pair: it never
/// reads or writes the referenced elements. An out-of-range request raises
/// [`OutOfBounds`] and leaves the view exactly as it was.
pub trait ResizeSlice<T>: View<V = Seq<T>> {
    /// Narrows the view to the elements at `[start, end)` of its current
    /// range.
    fn resize(&mut self, start: usize, end: usize) -> (r: Result<(), OutOfBounds>)
        ensures
            r is Ok <==> can_narrow(old(self)@.len() as int, start as int, end as int),
            r is Ok ==> final(self)@ == narrowed(old(self)@, start as int, end as int),
            r is Err ==> final(self)@ == old(self)@,
    ;

    /// Narrows the view to a new beginning offset, keeping its end.
    fn resize_from(&mut self, start: usize) -> (r: Result<(), OutOfBounds>)
        ensures
            r is Ok <==> can_narrow_from(old(self)@.len() as int, start as int),
            r is Ok ==> final(self)@ == narrowed_from(old(self)@, start as int),
            r is Err ==> final(self)@ == old(self)@,
    ;

    /// Narrows the view to a new length, keeping its beginning.
    fn resize_to(&mut self, end: usize) -> (r: Result<(), OutOfBounds>)
        ensures
            r is Ok <==> can_narrow_to(old(self)@.len() as int, end as int),
            r is Ok ==> final(self)@ == narrowed_to(old(self)@, end as int),
            r is Err ==> final(self)@ == old(self)@,
    ;
}

/// Law: a narrowing to `[start, end)` keeps exactly `end - start` elements,
/// and element `i` of the narrowed view is element `start + i` of the
/// original.
pub proof fn lemma_narrow_shifts_elements<T>(s: Seq<T>, start: int, end: int)
    requires
        can_narrow(s.len() as int, start, end),
    ensures
        narrowed(s, start, end).len() == end - start,
        forall|i: int| 0 <= i < end - start ==> narrowed(s, start, end)[i] == s[start + i],
{
}

/// Law: narrowing from offset `start` is the same narrowing as
/// `resize(start, length)`.
pub proof fn lemma_resize_from_matches_resize<T>(s: Seq<T>, start: int)
    ensures
        can_narrow_from(s.len() as int, start) <==> can_narrow(
            s.len() as int,
            start,
            s.len() as int,
        ),
        can_narrow_from(s.len() as int, start) ==> narrowed_from(s, start) == narrowed(
            s,
            start,
            s.len() as int,
        ),
{
}

/// Law: narrowing to length `end` is the same narrowing as `resize(0, end)`.
pub proof fn lemma_resize_to_matches_resize<T>(s: Seq<T>, end: int)
    ensures
        can_narrow_to(s.len() as int, end) <==> can_narrow(s.len() as int, 0, end),
        can_narrow_to(s.len() as int, end) ==> narrowed_to(s, end) == narrowed(s, 0, end),
{
}

/// A read-only view of a contiguous run of elements.
pub struct SliceRef<'a, T> {
    data: &'a [T],
}

impl<'a, T> View for SliceRef<'a, T> {
    type V = Seq<T>;

    closed spec fn view(&self) -> Seq<T> {
        self.data@
    }
}

impl<'a, T> SliceRef<'a, T> {
    /// Wraps a borrowed slice as a view covering all of it.
    pub fn new(data: &'a [T]) -> (r: Self)
        ensures
            r@ == data@,
    {
        SliceRef { data }
    }

    /// Number of elements currently visible through the view.
    pub fn len(&self) -> (r: usize)
        ensures
            r == self@.len(),
    {
        self.data.len()
    }

    /// Reads the element at index `i` of the visible range.
    pub fn get(&self, i: usize) -> (r: &T)
        requires
            i < self@.len(),
        ensures
            *r == self@[i as int],
    {
        vstd::slice::slice_index_get(self.data, i)
    }

    /// Hands back the visible range as a plain slice.
    pub fn as_slice(&self) -> (r: &'a [T])
        ensures
            r@ == self@,
    {
        self.data
    }
}

impl<'a, T> ResizeSlice<T> for SliceRef<'a, T> {
    fn resize(&mut self, start: usize, end: usize) -> (r: Result<(), OutOfBounds>) {
        if start <= end && end <= self.data.len() {
            self.data = vstd::slice::slice_subrange(self.data, start, end);
            Ok(())
        } else {
            Err(OutOfBounds)
        }
    }

    fn resize_from(&mut self, start: usize) -> (r: Result<(), OutOfBounds>) {
        let end: usize = self.data.len();
        self.resize(start, end)
    }

    fn resize_to(&mut self, end: usize) -> (r: Result<(), OutOfBounds>) {
        self.resize(0, end)
    }
}

/// A mutable view of a contiguous run of elements.
pub struct SliceMut<'a, T> {
    data: &'a mut [T],
}

impl<'a, T> View for SliceMut<'a, T> {
    type V = Seq<T>;

    closed spec fn view(&self) -> Seq<T> {
        self.data@
    }
}

impl<'a, T> SliceMut<'a, T> {
    /// Wraps a borrowed mutable slice as a view covering all of it.
    pub fn new(data: &'a mut [T]) -> (r: Self)
        ensures
            r@ == old(data)@,
    {
        SliceMut { data }
    }

    /// Number of elements currently visible through the view.
    pub fn len(&self) -> (r: usize)
        ensures
            r == self@.len(),
    {
        self.data.len()
    }

    /// Reads the element at index `i` of the visible range.
    pub fn get(&self, i: usize) -> (r: &T)
        requires
            i < self@.len(),
        ensures
            *r == self@[i as int],
    {
        vstd::slice::slice_index_get(self.data, i)
    }

    /// Overwrites the element at index `i` of the visible range.
    pub fn set(&mut self, i: usize, v: T)
        requires
            i < old(self)@.len(),
        ensures
            final(self)@ == old(self)@.update(i as int, v),
    {
        self.data[i] = v;
    }
}

impl<'a, T> ResizeSlice<T> for SliceMut<'a, T> {
    fn resize(&mut self, start: usize, end: usize) -> (r: Result<(), OutOfBounds>) {
        if start <= end && end <= self.data.len() {
            let mut d: &'a mut [T] = empty_slice_mut();
            core::mem::swap(&mut self.data, &mut d);
            let (head, _tail) = d.split_at_mut(end);
            let (_front, window) = head.split_at_mut(start);
            self.data = window;
            Ok(())
        } else {
            Err(OutOfBounds)
        }
    }

    fn resize_from(&mut self, start: usize) -> (r: Result<(), OutOfBounds>) {
        let end: usize = self.data.len();
        self.resize(start, end)
    }

    fn resize_to(&mut self, end: usize) -> (r: Result<(), OutOfBounds>) {
        self.resize(0, end)
    }
}

/// Relies on std's `Default` for mutable slices: the default value is the
/// empty slice.
#[verifier::external_body]
fn empty_slice_mut<'a, T>() -> (r: &'a mut [T])
    ensures
        r@ =~= Seq::<T>::empty(),
{
    Default::default()
}

} // verus!
