//! The capability of being reset, and how it composes.

use vstd::prelude::*;
use crate::wrapper::ResettableWrapper;

verus! {

/// A value that can be put back to its last checkpoint.
///
/// A composite implements this by resetting each field that has the
/// capability and carrying every other field over as it is.
pub trait Resettable: Sized {
    /// Consumes the value and gives back its reset version.
    fn reset(self) -> Self;
}

/// `after` is a value that `before.reset()` may return, by the contract that
/// the implementation for `R` states.
pub open spec fn resets_to<R: Resettable>(before: R, after: R) -> bool {
    call_ensures(R::reset, (before,), after)
}

impl<T> Resettable for ResettableWrapper<T> {
    /// The wrapper goes back to its checkpoint and is clean again.
    fn reset(self) -> (restored: Self)
        ensures
            restored@ == self@.reset(),
    {
        ResettableWrapper::new(self.reset_inner())
    }
}

/// A pair resets field by field.
impl<A: Resettable, B: Resettable> Resettable for (A, B) {
    fn reset(self) -> (restored: Self)
        ensures
            resets_to(self.0, restored.0),
            resets_to(self.1, restored.1),
    {
        (self.0.reset(), self.1.reset())
    }
}

} // verus!
