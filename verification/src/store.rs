//! Stores: the unit of ownership for one slice of application state.

use crate::action::Action;
use crate::error::ReduceError;
use crate::reducer::{spec_reduce, Reducer, Rule};
use crate::utils::{StringMapValue, ValueModel};
use vstd::prelude::*;

verus! {

/// A named owner of one state value and the reducer that is alone allowed to
/// produce new values for it. Outside callers read the state only as an
/// immutable snapshot; only `dispatch` replaces it.
#[derive(Debug)]
pub struct GenericStore {
    id: String,
    initial: StringMapValue,
    state: StringMapValue,
    reducer: Reducer,
}

/// What one reduction does to a store: on rejection the state is bit-for-bit
/// what it was; on success the reported flag says whether the state was
/// replaced; the identity, the initial state and the rules never change.
pub open spec fn store_dispatch_ens(
    pre: GenericStore,
    post: GenericStore,
    action: Action,
    r: Result<bool, ReduceError>,
) -> bool {
    match spec_reduce(pre.spec_rules(), pre.spec_state(), action@) {
        Err(e) => r == Err::<bool, ReduceError>(e) && post == pre,
        Ok((sv, changed)) => {
            &&& r == Ok::<bool, ReduceError>(changed)
            &&& if changed {
                post.spec_state() == sv
            } else {
                post == pre
            }
            &&& post.spec_id() == pre.spec_id()
            &&& post.spec_initial() == pre.spec_initial()
            &&& post.spec_rules() == pre.spec_rules()
        },
    }
}

impl GenericStore {
    /// The stable identifier, unique within one application.
    pub closed spec fn spec_id(&self) -> Seq<char> {
        self.id@
    }

    /// The current state value.
    pub closed spec fn spec_state(&self) -> ValueModel {
        self.state@
    }

    /// The state the store was created with.
    pub closed spec fn spec_initial(&self) -> ValueModel {
        self.initial@
    }

    /// The reducer's rule list.
    pub closed spec fn spec_rules(&self) -> Seq<Rule> {
        self.reducer@
    }

    pub fn new(id: String, initial: StringMapValue, reducer: Reducer) -> (r: GenericStore)
        ensures
            r.spec_id() == id@,
            r.spec_state() == initial@,
            r.spec_initial() == initial@,
            r.spec_rules() == reducer@,
    {
        let state = initial.clone();
        GenericStore { id, initial, state, reducer }
    }

    pub fn get_id(&self) -> (r: &String)
        ensures
            r@ == self.spec_id(),
    {
        &self.id
    }

    /// A snapshot of the state the store was created with.
    pub fn initial_state(&self) -> (r: StringMapValue)
        ensures
            r@ == self.spec_initial(),
    {
        self.initial.clone()
    }

    /// An immutable snapshot of the current state.
    pub fn current_state(&self) -> (r: StringMapValue)
        ensures
            r@ == self.spec_state(),
    {
        self.state.clone()
    }

    /// Reduces the store's state by `action` and commits the new value
    /// before returning — synchronously, all or nothing.
    pub fn dispatch(&mut self, action: &Action) -> (r: Result<bool, ReduceError>)
        ensures
            store_dispatch_ens(*old(self), *final(self), *action, r),
    {
        match self.reducer.reduce(&self.state, action) {
            Err(e) => Err(e),
            Ok((new_state, changed)) => {
                if changed {
                    self.state = new_state;
                }
                Ok(changed)
            },
        }
    }
}

} // verus!
