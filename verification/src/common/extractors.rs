//! Request data read from a nested query string.
use vstd::prelude::*;

verus! {

/// Data read from a request's query string, whose keys may name nested fields.
pub struct ComplexQuery<T>(pub T);

impl<T> ComplexQuery<T> {
    /// The data itself.
    pub fn into_inner(self) -> (inner: T)
        ensures
            inner == self.0,
    {
        self.0
    }
}

impl<T> core::ops::Deref for ComplexQuery<T> {
    type Target = T;

    fn deref(&self) -> (inner: &T)
        ensures
            *inner == self.0,
    {
        &self.0
    }
}

impl<T> core::ops::DerefMut for ComplexQuery<T> {
    fn deref_mut(&mut self) -> (inner: &mut T)
        ensures
            *inner == old(self).0,
            final(self).0 == *final(inner),
    {
        &mut self.0
    }
}

} // verus!
