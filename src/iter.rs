//! An iterator interface whose `next` is the suspension point of the `async`
//! effect in its async variant; here the plain variant.

use vstd::prelude::*;

verus! {

/// A source of items, taken one at a time.
pub trait Iterator {
    type Item;

    /// Takes the next item, or `None` once there is none left.
    fn next(&mut self) -> Option<Self::Item>;

    /// Bounds on how many items are left: by default nothing is known.
    fn size_hint(&self) -> (usize, Option<usize>) {
        (0, None)
    }
}

impl<T> Iterator for Option<T> {
    type Item = T;

    /// An `Option` holds at most one item: `next` takes it.
    fn next(&mut self) -> (r: Option<T>)
        ensures
            r == *old(self),
            *final(self) is None,
    {
        self.take()
    }
}

} // verus!
