//! Change detection: remember a state and notice when a new value differs.

use vstd::prelude::*;
use vstd::std_specs::cmp::PartialEqSpec;

verus! {

/// Remembers the last seen state so that work can be skipped while nothing
/// changed.
#[derive(Debug, Default, Clone, Copy, Hash, PartialEq, Eq, PartialOrd, Ord)]
pub struct DetectChanges<T: PartialEq + Clone> {
    state: T,
}

impl<T: PartialEq + Clone> DetectChanges<T> {
    /// The remembered state.
    pub closed spec fn inner(self) -> T {
        self.state
    }

    pub fn new(initial_state: T) -> (r: DetectChanges<T>)
        ensures
            r.inner() == initial_state,
    {
        DetectChanges { state: initial_state }
    }

    pub fn state(&self) -> (r: &T)
        ensures
            *r == self.inner(),
    {
        &self.state
    }

    pub fn set_state(&mut self, state: T)
        ensures
            final(self).inner() == state,
    {
        self.state = state;
    }

    /// Whether the given state differs from the remembered one.
    pub fn changed(&self, state: &T) -> (r: bool)
        ensures
            T::obeys_eq_spec() ==> r == !self.inner().eq_spec(state),
    {
        self.state != *state
    }

    /// Remember the given state if it differs; report whether it did.
    pub fn note_change(&mut self, state: &T) -> (r: bool)
        ensures
            T::obeys_eq_spec() ==> r == !old(self).inner().eq_spec(state),
            r ==> cloned(*state, final(self).inner()),
            !r ==> final(self).inner() == old(self).inner(),
    {
        if self.changed(state) {
            self.set_state(state.clone());
            true
        } else {
            false
        }
    }
}

} // verus!
