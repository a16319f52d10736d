//! The wrapper: a live value and, while it is dirty, a snapshot to go back to.

use std::ops::{Deref, DerefMut};
use vstd::prelude::*;
use vstd::std_specs::convert::FromSpecImpl;
use crate::state::State;

verus! {

/// A value of type `T` that remembers what it was before it was first
/// written to.
///
/// Reading goes through `Deref` and never changes the wrapper. Writing goes
/// through `DerefMut`: the first write since construction or the last reset
/// clones the value into a checkpoint, later writes leave the checkpoint alone.
#[derive(PartialEq, Eq, PartialOrd, Ord, Debug)]
pub struct ResettableWrapper<T> {
    inner: T,
    stash: Option<T>,
}

impl<T> View for ResettableWrapper<T> {
    type V = State<T>;

    closed spec fn view(&self) -> State<T> {
        State { live: self.inner, checkpoint: self.stash }
    }
}

impl<T> ResettableWrapper<T> {
    /// The wrapper whose view is `state`.
    pub closed spec fn with_state(state: State<T>) -> Self {
        ResettableWrapper { inner: state.live, stash: state.checkpoint }
    }

    /// `with_state` undoes the view.
    pub proof fn lemma_with_state_of_view(self)
        ensures
            Self::with_state(self@) == self,
    {
    }

    /// The view undoes `with_state`.
    pub proof fn lemma_view_of_with_state(state: State<T>)
        ensures
            Self::with_state(state)@ == state,
    {
    }

    /// Wraps `inner`. The wrapper starts clean.
    pub fn new(inner: T) -> (wrapper: Self)
        ensures
            wrapper@ == State::fresh(inner),
    {
        ResettableWrapper { inner, stash: None }
    }

    /// Gives up the wrapper for its live value. The checkpoint is dropped
    /// unused.
    pub fn into_inner(self) -> (value: T)
        ensures
            value == self@.live,
    {
        self.inner
    }

    /// Gives up the wrapper for the value a reset goes back to: the checkpoint
    /// if the wrapper is dirty, the live value if it is clean.
    pub fn reset_inner(self) -> (value: T)
        ensures
            value == self@.restored_value(),
    {
        if let Some(stash) = self.stash {
            stash
        } else {
            self.inner
        }
    }
}

impl<T: Default> Default for ResettableWrapper<T> {
    /// A clean wrapper around the default value of `T`.
    fn default() -> (wrapper: Self)
        ensures
            wrapper@.is_clean(),
            call_ensures(T::default, (), wrapper@.live),
    {
        ResettableWrapper { inner: T::default(), stash: None }
    }
}

impl<T: Clone> Clone for ResettableWrapper<T> {
    /// Clones the live value and, if there is one, the checkpoint: the copy is
    /// dirty exactly when `self` is.
    fn clone(&self) -> (copy: Self)
        ensures
            cloned(self@.live, copy@.live),
            copy@.is_dirty() == self@.is_dirty(),
            self@.is_dirty() ==> cloned(self@.checkpoint->0, copy@.checkpoint->0),
    {
        ResettableWrapper { inner: self.inner.clone(), stash: self.stash.clone() }
    }
}

impl<T> Deref for ResettableWrapper<T> {
    type Target = T;

    /// Read access to the live value.
    fn deref(&self) -> (live: &T)
        ensures
            *live == self@.live,
    {
        &self.inner
    }
}

impl<T: Clone> DerefMut for ResettableWrapper<T> {
    /// Write access to the live value. A clean wrapper first clones the live
    /// value into its checkpoint; a dirty one is handed out as it is.
    fn deref_mut(&mut self) -> (live: &mut T)
        ensures
            *live == old(self)@.live,
            final(self)@.live == *final(live),
            old(self)@.accessed_mutably(final(self)@),
    {
        if self.stash.is_none() {
            self.stash = Some(self.inner.clone());
        }
        &mut self.inner
    }
}

impl<T> From<T> for ResettableWrapper<T> {
    /// The same as `new`.
    fn from(inner: T) -> (wrapper: Self)
        ensures
            wrapper@ == State::fresh(inner),
    {
        ResettableWrapper::new(inner)
    }
}

impl<T> FromSpecImpl<T> for ResettableWrapper<T> {
    open spec fn obeys_from_spec() -> bool {
        true
    }

    open spec fn from_spec(inner: T) -> Self {
        Self::with_state(State::fresh(inner))
    }
}

} // verus!
