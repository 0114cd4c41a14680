//! The error taxonomy. Every failure is returned to the immediate caller of
//! `dispatch` / `register_*`; none is silently discarded.

use vstd::prelude::*;

verus! {

/// Why a reducer rejected an action.
#[derive(Clone, Copy, Debug, PartialEq, Eq, Structural)]
pub enum ReduceError {
    /// The store's current state does not have the shape the rule expects.
    StateKind,
    /// The action's payload does not have the shape the rule expects.
    PayloadKind,
    /// The transition would leave the representable integer range.
    Overflow,
}

/// Everything the registration and dispatch entry points can fail with.
#[derive(Clone, Copy, Debug, PartialEq, Eq, Structural)]
pub enum StoreError {
    /// The action kind or store id has no registered store manager.
    Routing,
    /// The store id or action-kind mapping already exists; registration is
    /// rejected rather than silently orphaning the earlier store's listeners.
    DuplicateRegistration,
    /// The reducer rejected the action; the store's state is untouched.
    Reduction(ReduceError),
    /// A dispatch was attempted on a store already mid-dispatch; nested
    /// dispatch on the same store is disallowed.
    Reentrancy,
}

impl StoreError {
    /// A short description, for hosts that log errors.
    pub fn describe(&self) -> (r: &'static str)
        ensures
            r@ == self.spec_describe(),
    {
        match self {
            StoreError::Routing => "no store is registered for this action kind or store id",
            StoreError::DuplicateRegistration => "the store id or action kind is already registered",
            StoreError::Reduction(e) => e.describe(),
            StoreError::Reentrancy => "a dispatch is already in progress on this store",
        }
    }

    pub open spec fn spec_describe(&self) -> Seq<char> {
        match self {
            StoreError::Routing => "no store is registered for this action kind or store id"@,
            StoreError::DuplicateRegistration => "the store id or action kind is already registered"@,
            StoreError::Reduction(e) => e.spec_describe(),
            StoreError::Reentrancy => "a dispatch is already in progress on this store"@,
        }
    }
}

impl ReduceError {
    /// A short description, for hosts that log errors.
    pub fn describe(&self) -> (r: &'static str)
        ensures
            r@ == self.spec_describe(),
    {
        match self {
            ReduceError::StateKind => "state has the wrong shape for this rule",
            ReduceError::PayloadKind => "payload has the wrong shape for this rule",
            ReduceError::Overflow => "transition leaves the integer range",
        }
    }

    pub open spec fn spec_describe(&self) -> Seq<char> {
        match self {
            ReduceError::StateKind => "state has the wrong shape for this rule"@,
            ReduceError::PayloadKind => "payload has the wrong shape for this rule"@,
            ReduceError::Overflow => "transition leaves the integer range"@,
        }
    }
}

} // verus!
