//! Type erasure of a runtime backend.
use vstd::prelude::*;

verus! {

/// Wraps a runtime so that every capability it creates can be handed out
/// behind one uniform, dynamically dispatched handle.
#[derive(Debug)]
pub struct Dyn<T>(pub T);

impl<T> Dyn<T> {
    /// Create a new [`Dyn`] around `t`.
    pub fn new(t: T) -> (r: Self)
        ensures
            r.0 == t,
    {
        Dyn(t)
    }

    /// The wrapped runtime.
    pub fn get_ref(&self) -> (r: &T)
        ensures
            *r == self.0,
    {
        &self.0
    }

    /// Unwrap into the runtime that was wrapped.
    pub fn into_inner(self) -> (r: T)
        ensures
            r == self.0,
    {
        self.0
    }
}

} // verus!
