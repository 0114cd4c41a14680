//! Laws of the notification pass, stated over the same predicate the
//! dispatch contracts use ([`notified_view`]), so they hold of every dispatch
//! that changes state.
//!
//! Atomicity on reducer failure, no-op suppression, routing isolation and
//! duplicate-registration rejection are stated directly in the `ensures` of
//! [`crate::storemanager::manager_dispatch_ens`],
//! [`crate::application::app_dispatch_ens`] and
//! [`crate::application::register_store_ens`]; the two facts below relate
//! several listeners and several passes, so they stand as proofs of their
//! own.

use crate::event::{all_spawns, notified_view, EventListener};
use crate::utils::ValueModel;
use vstd::prelude::*;

verus! {

/// Listener isolation: what a notification pass delivers to a listener whose
/// callback does not raise depends on that listener's record alone. Two
/// passes over snapshots that agree at position `j` — however much the other
/// listeners differ, raising or not — deliver the same thing to `j`: one
/// more event, carrying the pass's store id and state, behind its previous
/// log. In particular a raising listener earlier in the snapshot never
/// prevents a later one from being invoked.
pub proof fn lemma_listener_isolation(
    orig1: Seq<EventListener>,
    cur1: Seq<EventListener>,
    failures1: Seq<String>,
    orig2: Seq<EventListener>,
    cur2: Seq<EventListener>,
    failures2: Seq<String>,
    evt_id: Seq<char>,
    evt_state: ValueModel,
    j: int,
)
    requires
        notified_view(orig1, cur1, evt_id, evt_state, failures1),
        notified_view(orig2, cur2, evt_id, evt_state, failures2),
        0 <= j < orig1.len(),
        0 <= j < orig2.len(),
        orig1[j] == orig2[j],
        !orig1[j].failing,
    ensures
        cur1[j].received@.len() == orig1[j].received@.len() + 1,
        cur1[j].received@.subrange(0, orig1[j].received@.len() as int) == orig1[j].received@,
        cur1[j].received@.last()@.store_id == evt_id,
        cur1[j].received@.last()@.state == evt_state,
        cur2[j].received@.len() == cur1[j].received@.len(),
        cur2[j].received@.last()@ == cur1[j].received@.last()@,
        cur2[j].received@.subrange(0, orig1[j].received@.len() as int) == cur1[
            j
        ].received@.subrange(0, orig1[j].received@.len() as int),
{
}

/// Late registration: a listener registered from within another listener's
/// callback during pass `N` stands behind the snapshot exactly as it was
/// registered — pass `N` did not invoke it — and the next state-changing
/// pass delivers its event to it like to any other listener.
pub proof fn lemma_late_registration(
    orig: Seq<EventListener>,
    cur: Seq<EventListener>,
    evt_id: Seq<char>,
    evt_state: ValueModel,
    failures: Seq<String>,
    cur2: Seq<EventListener>,
    evt_id2: Seq<char>,
    evt_state2: ValueModel,
    failures2: Seq<String>,
    m: int,
)
    requires
        notified_view(orig, cur, evt_id, evt_state, failures),
        orig.len() <= m < cur.len(),
        notified_view(cur, cur2, evt_id2, evt_state2, failures2),
        !cur[m].failing,
    ensures
        cur[m] == all_spawns(orig)[m - orig.len()],
        cur2[m].received@.len() == cur[m].received@.len() + 1,
        cur2[m].received@.subrange(0, cur[m].received@.len() as int) == cur[m].received@,
        cur2[m].received@.last()@.store_id == evt_id2,
        cur2[m].received@.last()@.state == evt_state2,
{
    assert(cur.skip(orig.len() as int)[m - orig.len()] == cur[m]);
}

} // verus!
