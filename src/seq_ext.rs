//! Signed indexing and slicing, shared by slices and vectors.
use vstd::prelude::*;

use crate::range::{from_end, resolve, resolve_spec, signed_position};

verus! {

/// A sequence that can be read and sliced with signed, possibly negative,
/// indices. Vectors go through the same code as slices.
pub trait SignedIndex<T> {
    /// The elements of the sequence.
    spec fn elems(&self) -> Seq<T>;

    /// The element at `index`, counted from the end when `index` is negative
    /// (an index before the start names the first element); `None` when that
    /// position is at or past the end.
    fn get_signed(&self, index: isize) -> (r: Option<&T>)
        ensures
            ({
                let p = signed_position(index as int, self.elems().len() as int);
                &&& r is Some <==> p < self.elems().len()
                &&& r is Some ==> *r.unwrap() == self.elems()[p]
            }),
    ;

    /// Exclusive access to the element that `get_signed` would return.
    fn get_signed_mut(&mut self, index: isize) -> (r: Option<&mut T>)
        ensures
            ({
                let p = signed_position(index as int, old(self).elems().len() as int);
                &&& r is Some <==> p < old(self).elems().len()
                &&& r is Some ==> *r.unwrap() == old(self).elems()[p]
                    && final(self).elems() == old(self).elems().update(p, *final(r.unwrap()))
                &&& r is None ==> final(self).elems() == old(self).elems()
            }),
    ;

    /// The elements of the half-open range that the optional signed bounds
    /// resolve to; never fails, and may be empty.
    fn slice_signed(&self, start: Option<isize>, end: Option<isize>) -> (r: &[T])
        ensures
            ({
                let range = resolve_spec(start, end, self.elems().len() as int);
                r@ == self.elems().subrange(range.0, range.1)
            }),
    ;
}

impl<T> SignedIndex<T> for [T] {
    open spec fn elems(&self) -> Seq<T> {
        self@
    }

    fn get_signed(&self, index: isize) -> (r: Option<&T>) {
        let p = from_end(index, self.len());
        if p < self.len() {
            Some(&self[p])
        } else {
            None
        }
    }

    fn get_signed_mut(&mut self, index: isize) -> (r: Option<&mut T>) {
        let p = from_end(index, self.len());
        if p < self.len() {
            let (_, tail) = self.split_at_mut(p);
            tail.first_mut()
        } else {
            None
        }
    }

    fn slice_signed(&self, start: Option<isize>, end: Option<isize>) -> (r: &[T]) {
        let (s, e) = resolve(start, end, self.len());
        &self[s..e]
    }
}

impl<T> SignedIndex<T> for Vec<T> {
    open spec fn elems(&self) -> Seq<T> {
        self@
    }

    fn get_signed(&self, index: isize) -> (r: Option<&T>) {
        self.as_slice().get_signed(index)
    }

    fn get_signed_mut(&mut self, index: isize) -> (r: Option<&mut T>) {
        self.as_mut_slice().get_signed_mut(index)
    }

    fn slice_signed(&self, start: Option<isize>, end: Option<isize>) -> (r: &[T]) {
        self.as_slice().slice_signed(start, end)
    }
}

} // verus!
