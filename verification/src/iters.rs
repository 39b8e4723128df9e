//! A small pull-based iterator utility: an endless source cut down to a
//! fixed number of items.  Items travel by value, so a source over a `Copy`
//! type can hand the same item out repeatedly.

use vstd::prelude::*;

verus! {

/// A pull-based source of items.
pub trait ItemSource: Sized {
    /// The item handed out for one step.
    type Item;

    /// The next item, or `None` when exhausted.
    fn next(&mut self) -> Option<Self::Item>;

    /// Restricts this source to its first `n` items.
    fn take(self, n: usize) -> (t: Take<Self>)
        ensures
            t.inner == self,
            t.rem == n,
    {
        Take { inner: self, rem: n }
    }
}

/// Hands the same item out forever.
pub struct Repeat<T> {
    pub item: T,
}

impl<T: Copy> ItemSource for Repeat<T> {
    type Item = T;

    fn next(&mut self) -> (r: Option<T>)
        ensures
            r matches Some(v) && v == old(self).item,
            *final(self) == *old(self),
    {
        Some(self.item)
    }
}

/// The first `rem` remaining items of the underlying source.
pub struct Take<I: ItemSource> {
    pub inner: I,
    pub rem: usize,
}

impl<I: ItemSource> ItemSource for Take<I> {
    type Item = I::Item;

    fn next(&mut self) -> (r: Option<I::Item>)
        ensures
            old(self).rem == 0 ==> r is None && *final(self) == *old(self),
            old(self).rem > 0 ==> final(self).rem == old(self).rem - 1,
    {
        if self.rem > 0 {
            self.rem -= 1;
            self.inner.next()
        } else {
            None
        }
    }
}

/// Hands out the first three copies of one fixed array: a repeating source
/// cut down to three items.
pub fn f() {
    let mut it = Repeat { item: [1i32, 2i32, 3i32, 4i32] }.take(3);
    let first = it.next();
    proof {
        assert(it.rem == 2);
    }
    let _ = first;
}

} // verus!
