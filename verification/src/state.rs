//! The shared-state registry: one instance per distinct state type, created by
//! a `load_state` hook before any action of that kind executes, then shared
//! read-only for the whole run. One registry cell holds the one instance of
//! one state type; the driver keeps a cell per state type the graph uses.

use vstd::prelude::*;

verus! {

/// The registry cell for one state type `S`, viewed as the instance it holds,
/// if any.
pub struct SharedState<S> {
    entry: Option<S>,
}

/// What one registration leaves in a cell, whatever it held before: the last
/// registration wins, with no conflict detection at this layer.
pub open spec fn registered<S>(prior: Option<S>, instance: S) -> Option<S> {
    Some(instance)
}

impl<S> View for SharedState<S> {
    type V = Option<S>;

    closed spec fn view(&self) -> Option<S> {
        self.entry
    }
}

impl<S> SharedState<S> {
    /// An empty cell: no `load_state` hook has run for this type yet.
    pub fn new() -> (r: Self)
        ensures
            r@ == None::<S>,
    {
        SharedState { entry: None }
    }

    /// Register the one shared instance of this type. Registration overwrites
    /// any previous instance: the last registration wins, and no conflict
    /// detection is performed at this layer. A `load_state` hook that calls
    /// this twice with equal instances therefore leaves the cell as one call
    /// would, which keeps the hook idempotent.
    pub fn add_state(&mut self, instance: S)
        ensures
            final(self)@ == registered(old(self)@, instance),
            final(self)@ == Some(instance),
    {
        self.entry = Some(instance);
    }

    /// Registration is idempotent: a `load_state` hook that registers the same
    /// instance twice leaves the cell exactly as one registration would, so a
    /// driver that invokes the hook more than once corrupts nothing.
    pub proof fn lemma_registration_idempotent(prior: Option<S>, instance: S)
        ensures
            registered(registered(prior, instance), instance) == registered(prior, instance),
    {
    }

    /// A shared, read-only handle on the registered instance, or `None` if no
    /// `load_state` hook for this type has run. Callers surface the `None`
    /// case as `ActionError::StateNotLoaded`.
    pub fn get_state(&self) -> (r: Option<&S>)
        ensures
            match r {
                Some(s) => self@ == Some(*s),
                None => self@ == None::<S>,
            },
    {
        match &self.entry {
            Some(s) => Some(s),
            None => None,
        }
    }
}

} // verus!
