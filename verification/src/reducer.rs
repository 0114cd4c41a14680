//! Reducers: pure state transitions, written as data.
//!
//! A reducer is a closed list of rules, each binding an action kind to one of
//! a small set of typed transition operations. Interpreting the rules is the
//! library's job, so every transition — including the defensive handling of
//! unrecognized kinds and malformed payloads — is verified once, here,
//! instead of being promised by every store author.

use crate::action::{Action, ActionModel};
use crate::error::ReduceError;
use crate::utils::{StringMapValue, ValueModel};
use vstd::prelude::*;

verus! {

/// The transition operations a rule can bind an action kind to.
#[derive(Clone, Copy, Debug, PartialEq, Eq, Structural)]
pub enum Op {
    /// Replace the state with the payload; a no-op when they are equal.
    Replace,
    /// Add an integer payload to an integer state, rejecting overflow; a
    /// no-op when the payload is zero.
    Increment,
    /// Negate a boolean state; the payload is ignored.
    Toggle,
}

/// One rule: actions of this kind perform this operation.
#[derive(Debug)]
pub struct Rule {
    pub kind: String,
    pub op: Op,
}

impl Rule {
    pub fn new(kind: String, op: Op) -> (r: Rule)
        ensures
            r.kind@ == kind@,
            r.op == op,
    {
        Rule { kind, op }
    }
}

/// A pure state-transition function, owned by one store: the first rule
/// whose kind matches the action decides the transition; an action no rule
/// recognizes is a benign no-op, never a failure.
#[derive(Debug)]
pub struct Reducer {
    rules: Vec<Rule>,
}

impl View for Reducer {
    type V = Seq<Rule>;

    closed spec fn view(&self) -> Seq<Rule> {
        self.rules@
    }
}

/// The operation the first rule matching `kind` performs, if any.
pub open spec fn rule_for(rules: Seq<Rule>, kind: Seq<char>) -> Option<Op>
    decreases rules.len(),
{
    if rules.len() == 0 {
        None
    } else if rules[0].kind@ == kind {
        Some(rules[0].op)
    } else {
        rule_for(rules.skip(1), kind)
    }
}

/// What one operation does with the current state and the payload: the new
/// state and whether it differs, or the reason the action is rejected.
pub open spec fn apply_rule(op: Op, state: ValueModel, payload: ValueModel) -> Result<
    (ValueModel, bool),
    ReduceError,
> {
    match op {
        Op::Replace => Ok((payload, payload != state)),
        Op::Increment => match (state, payload) {
            (ValueModel::Int(a), ValueModel::Int(n)) => {
                if a + n < i64::MIN as int || a + n > i64::MAX as int {
                    Err(ReduceError::Overflow)
                } else {
                    Ok((ValueModel::Int(a + n), n != 0))
                }
            },
            (ValueModel::Int(_), _) => Err(ReduceError::PayloadKind),
            _ => Err(ReduceError::StateKind),
        },
        Op::Toggle => match state {
            ValueModel::Bool(b) => Ok((ValueModel::Bool(!b), true)),
            _ => Err(ReduceError::StateKind),
        },
    }
}

/// The whole reduction: route the action through the rule list, then apply
/// the matched operation; an unmatched action leaves the state as it is and
/// reports "no change".
pub open spec fn spec_reduce(rules: Seq<Rule>, state: ValueModel, action: ActionModel) -> Result<
    (ValueModel, bool),
    ReduceError,
> {
    match rule_for(rules, action.kind) {
        None => Ok((state, false)),
        Some(op) => apply_rule(op, state, action.payload),
    }
}

/// The executable result agrees with the mathematical one.
pub open spec fn reduce_agrees(
    model: Result<(ValueModel, bool), ReduceError>,
    r: Result<(StringMapValue, bool), ReduceError>,
) -> bool {
    match (model, r) {
        (Ok((sv, sc)), Ok((v, c))) => v@ == sv && c == sc,
        (Err(se), Err(e)) => e == se,
        _ => false,
    }
}

impl Reducer {
    pub fn new(rules: Vec<Rule>) -> (r: Reducer)
        ensures
            r@ == rules@,
    {
        Reducer { rules }
    }

    /// Reduces `state` by `action`. The state is taken and returned by
    /// value: the caller owns the commit, so a rejection cannot leave a
    /// partial update behind.
    pub fn reduce(&self, state: &StringMapValue, action: &Action) -> (r: Result<
        (StringMapValue, bool),
        ReduceError,
    >)
        ensures
            reduce_agrees(spec_reduce(self@, state@, action@), r),
    {
        match self.find_rule(action.get_type()) {
            None => Ok((state.clone(), false)),
            Some(op) => Self::apply(op, state, action.get_payload()),
        }
    }

    /// The operation of the first rule matching `kind`, if any.
    fn find_rule(&self, kind: &String) -> (r: Option<Op>)
        ensures
            r == rule_for(self@, kind@),
    {
        let n = self.rules.len();
        let mut i: usize = 0;
        assert(self@.skip(0) =~= self@);
        while i < n
            invariant
                n == self@.len(),
                0 <= i <= n,
                rule_for(self@, kind@) == rule_for(self@.skip(i as int), kind@),
            decreases n - i,
        {
            assert(self@.skip(i as int)[0] == self@[i as int]);
            if self.rules[i].kind.eq(kind) {
                return Some(self.rules[i].op);
            }
            assert(self@.skip(i as int).skip(1) =~= self@.skip(i as int + 1));
            i = i + 1;
        }
        assert(self@.skip(n as int).len() == 0);
        None
    }

    fn apply(op: Op, state: &StringMapValue, payload: &StringMapValue) -> (r: Result<
        (StringMapValue, bool),
        ReduceError,
    >)
        ensures
            reduce_agrees(apply_rule(op, state@, payload@), r),
    {
        match op {
            Op::Replace => {
                let changed = !payload.equals(state);
                Ok((payload.clone(), changed))
            },
            Op::Increment => match (state, payload) {
                (StringMapValue::Int(a), StringMapValue::Int(n)) => {
                    if (*n >= 0 && *a > i64::MAX - *n) || (*n < 0 && *a < i64::MIN - *n) {
                        Err(ReduceError::Overflow)
                    } else {
                        Ok((StringMapValue::Int(*a + *n), *n != 0))
                    }
                },
                (StringMapValue::Int(_), _) => Err(ReduceError::PayloadKind),
                _ => Err(ReduceError::StateKind),
            },
            Op::Toggle => match state {
                StringMapValue::Bool(b) => Ok((StringMapValue::Bool(!*b), true)),
                _ => Err(ReduceError::StateKind),
            },
        }
    }
}

} // verus!
