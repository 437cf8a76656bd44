//! Provides `ArrayVec`, a vector with statically fixed capacity.

use vstd::prelude::*;

verus! {

/// A vector that holds at most `N` elements.
///
/// This is useful where a small but dynamic number of elements is needed
/// and the caller must be able to rely on an upper bound: a function that
/// returns a variable number of values, but no more than 8, can return an
/// `ArrayVec<8, T>`.
#[derive(Debug)]
pub struct ArrayVec<const N: usize, T> {
    items: Vec<T>,
}

impl<const N: usize, T> View for ArrayVec<N, T> {
    type V = Seq<T>;

    closed spec fn view(&self) -> Seq<T> {
        self.items@
    }
}

impl<const N: usize, T> ArrayVec<N, T> {
    /// Whether the vector is within its capacity.
    pub open spec fn wf(&self) -> bool {
        self@.len() <= N
    }

    /// Creates an empty vector.
    pub fn new() -> (r: Self)
        ensures
            r@ == Seq::<T>::empty(),
            r.wf(),
    {
        ArrayVec { items: Vec::new() }
    }

    /// Appends `elem` to a vector that is not full.
    pub fn push(&mut self, elem: T)
        requires
            old(self)@.len() < N,
        ensures
            final(self)@ == old(self)@.push(elem),
            final(self).wf(),
    {
        self.items.push(elem);
    }

    /// Appends `elem` if the vector is not full, and hands it back if it is.
    pub fn try_push(&mut self, elem: T) -> (r: Result<(), T>)
        ensures
            old(self)@.len() < N ==> r is Ok && final(self)@ == old(self)@.push(elem),
            old(self)@.len() >= N ==> r == Err::<(), T>(elem) && final(self)@ == old(self)@,
    {
        if self.items.len() < N {
            self.items.push(elem);
            Ok(())
        } else {
            Err(elem)
        }
    }

    /// Returns the number of elements.
    pub fn len(&self) -> (r: usize)
        ensures
            r == self@.len(),
    {
        self.items.len()
    }

    /// Returns the elements as a slice.
    pub fn as_ref(&self) -> (r: &[T])
        ensures
            r@ == self@,
    {
        self.items.as_slice()
    }
}

impl<const N: usize, T> Default for ArrayVec<N, T> {
    fn default() -> (r: Self)
        ensures
            r@ == Seq::<T>::empty(),
    {
        ArrayVec { items: Vec::new() }
    }
}

} // verus!
