//! The mathematical model of a resettable value: a live value and at most one
//! checkpoint.

use vstd::pervasive::strictly_cloned;
use vstd::prelude::*;

verus! {

/// What a wrapper holds, as plain data.
///
/// `checkpoint` is `None` while the value is clean, and `Some(v)` once it is
/// dirty, where `v` is the snapshot taken when the dirty period began.
pub ghost struct State<T> {
    pub live: T,
    pub checkpoint: Option<T>,
}

impl<T> State<T> {
    /// The state of a wrapper that was just made from `value`.
    pub open spec fn fresh(value: T) -> Self {
        State { live: value, checkpoint: None }
    }

    /// No mutable access has been granted since construction or the last reset.
    pub open spec fn is_clean(self) -> bool {
        self.checkpoint is None
    }

    /// A checkpoint is held.
    pub open spec fn is_dirty(self) -> bool {
        self.checkpoint is Some
    }

    /// The value a reset goes back to: the checkpoint if there is one, else
    /// the live value.
    pub open spec fn restored_value(self) -> T {
        match self.checkpoint {
            Some(snapshot) => snapshot,
            None => self.live,
        }
    }

    /// The state after a reset: clean, holding the restored value.
    pub open spec fn reset(self) -> Self {
        Self::fresh(self.restored_value())
    }
}

impl<T: Clone> State<T> {
    /// `after` is a state that one mutable access can leave behind when it
    /// starts from `self`.
    ///
    /// A clean state gets a checkpoint that `T::clone` may return for the live
    /// value; a dirty state keeps the checkpoint it has. The live value of
    /// `after` is whatever the holder of the access wrote, so nothing is said
    /// of it.
    pub open spec fn accessed_mutably(self, after: Self) -> bool {
        match self.checkpoint {
            Some(snapshot) => after.checkpoint == Some(snapshot),
            None => after.checkpoint is Some && strictly_cloned(self.live, after.checkpoint->0),
        }
    }
}

} // verus!
