//! Actions: immutable, typed descriptions of "what happened".

use crate::utils::{StringMapValue, ValueModel};
use vstd::prelude::*;

verus! {

/// Mathematical model of an [`Action`].
pub ghost struct ActionModel {
    pub kind: Seq<char>,
    pub payload: ValueModel,
}

/// An immutable description of an intended state transition. Only `kind` is
/// load-bearing for routing; the payload is interpreted by the reducer of the
/// store the action is routed to.
#[derive(Debug)]
pub struct Action {
    kind: String,
    payload: StringMapValue,
}

impl View for Action {
    type V = ActionModel;

    closed spec fn view(&self) -> ActionModel {
        ActionModel { kind: self.kind@, payload: self.payload@ }
    }
}

impl Action {
    pub fn new(kind: String, payload: StringMapValue) -> (r: Action)
        ensures
            r@.kind == kind@,
            r@.payload == payload@,
    {
        Action { kind, payload }
    }

    /// The routing discriminant.
    pub fn get_type(&self) -> (r: &String)
        ensures
            r@ == self@.kind,
    {
        &self.kind
    }

    /// The data carried along for the reducer.
    pub fn get_payload(&self) -> (r: &StringMapValue)
        ensures
            r@ == self@.payload,
    {
        &self.payload
    }
}

} // verus!
