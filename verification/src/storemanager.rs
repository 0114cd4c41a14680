//! Store managers: the runtime pairing of one store with dispatch
//! serialization and listener notification.

use crate::action::Action;
use crate::error::StoreError;
use crate::event::{
    all_spawns, failed_names, notified_one, notified_view, Event, EventListener, EventProducer,
};
use crate::reducer::spec_reduce;
use crate::store::GenericStore;
use vstd::prelude::*;

verus! {

/// What a successful dispatch reports back: whether the state changed, how
/// many listener callbacks ran, and — as a side channel that never fails the
/// dispatch, since the state change has already committed — the names of the
/// listeners whose callbacks raised.
#[derive(Debug)]
pub struct DispatchReport {
    pub changed: bool,
    pub notified: usize,
    pub failures: Vec<String>,
}

/// Routes one action into a store's reduction logic.
pub trait Dispatcher: Sized {
    /// What a caller must establish before dispatching.
    spec fn dispatch_req(&self) -> bool;

    /// What one dispatch does: how the new state relates to the old one, and
    /// which result is returned for which inputs.
    spec fn dispatch_ens(
        pre: Self,
        post: Self,
        action: Action,
        r: Result<DispatchReport, StoreError>,
    ) -> bool;

    /// Sends `action` through the reducer responsible for it; on a
    /// state-changing success, notifies listeners before returning.
    fn dispatch(&mut self, action: &Action) -> (r: Result<DispatchReport, StoreError>)
        requires
            old(self).dispatch_req(),
        ensures
            Self::dispatch_ens(*old(self), *final(self), *action, r),
    ;
}

/// Owns one store exclusively, serializes dispatch on it, and fans change
/// notifications out to the listeners registered for it.
#[derive(Debug)]
pub struct StoreManager {
    store: GenericStore,
    dispatching: bool,
    lsnrs: Vec<EventListener>,
}

/// What one dispatch does to a manager.
///
/// - While the manager is already mid-dispatch, a nested dispatch is refused
///   and nothing changes (the "disallow" re-entrancy policy).
/// - When the reducer rejects the action, the error is propagated, the state
///   is bit-for-bit what it was, and no listener is invoked.
/// - When the reducer reports "no change", no listener is invoked and the
///   manager is untouched.
/// - When the state changed, the new value is committed and every listener
///   of the point-in-time snapshot is notified, in registration order, with
///   raising callbacks isolated and collected in the report.
pub open spec fn manager_dispatch_ens(
    pre: StoreManager,
    post: StoreManager,
    action: Action,
    r: Result<DispatchReport, StoreError>,
) -> bool {
    if pre.spec_dispatching() {
        r == Err::<DispatchReport, StoreError>(StoreError::Reentrancy) && post == pre
    } else {
        match spec_reduce(pre.spec_store().spec_rules(), pre.spec_store().spec_state(), action@) {
            Err(e) => r == Err::<DispatchReport, StoreError>(StoreError::Reduction(e)) && post
                == pre,
            Ok((sv, changed)) => {
                &&& !post.spec_dispatching()
                &&& post.spec_store().spec_id() == pre.spec_store().spec_id()
                &&& post.spec_store().spec_initial() == pre.spec_store().spec_initial()
                &&& post.spec_store().spec_rules() == pre.spec_store().spec_rules()
                &&& if changed {
                    &&& post.spec_store().spec_state() == sv
                    &&& match r {
                        Ok(rep) => {
                            &&& rep.changed
                            &&& notified_view(
                                pre.spec_listeners(),
                                post.spec_listeners(),
                                pre.spec_store().spec_id(),
                                sv,
                                rep.failures@,
                            )
                            &&& rep.notified + rep.failures@.len()
                                == pre.spec_listeners().len()
                        },
                        Err(_) => false,
                    }
                } else {
                    &&& post == pre
                    &&& match r {
                        Ok(rep) => !rep.changed && rep.notified == 0 && rep.failures@
                            == Seq::<String>::empty(),
                        Err(_) => false,
                    }
                }
            },
        }
    }
}

/// The failure report never names more listeners than the snapshot held.
pub proof fn lemma_failed_names_len(s: Seq<EventListener>)
    ensures
        failed_names(s).len() <= s.len(),
    decreases s.len(),
{
    if s.len() > 0 {
        lemma_failed_names_len(s.drop_last());
    }
}

impl StoreManager {
    /// The owned store.
    pub closed spec fn spec_store(&self) -> GenericStore {
        self.store
    }

    /// The re-entrancy guard: true only while a dispatch is running.
    pub closed spec fn spec_dispatching(&self) -> bool {
        self.dispatching
    }

    /// The listeners registered on this manager's store, in order.
    pub closed spec fn spec_listeners(&self) -> Seq<EventListener> {
        self.lsnrs@
    }

    pub fn new(store: GenericStore) -> (r: StoreManager)
        ensures
            r.spec_store() == store,
            !r.spec_dispatching(),
            r.spec_listeners() == Seq::<EventListener>::empty(),
    {
        StoreManager { store, dispatching: false, lsnrs: Vec::new() }
    }

    /// The stable identifier of the owned store.
    pub fn store_id(&self) -> (r: &String)
        ensures
            r@ == self.spec_store().spec_id(),
    {
        self.store.get_id()
    }

    /// An immutable snapshot of the owned store's state.
    pub fn current_state(&self) -> (r: crate::utils::StringMapValue)
        ensures
            r@ == self.spec_store().spec_state(),
    {
        self.store.current_state()
    }

    /// Read access to the listener records, for hosts that react to the
    /// delivery logs.
    pub fn get_listeners(&self) -> (r: &Vec<EventListener>)
        ensures
            r@ == self.spec_listeners(),
    {
        &self.lsnrs
    }

    /// One notification pass over the point-in-time snapshot of the listener
    /// collection taken at entry. Listeners registered mid-pass (by a
    /// listener's own registration description) are appended behind the
    /// snapshot and are not invoked during this pass; a raising listener is
    /// recorded and skipped without disturbing the rest of the pass.
    fn inform_listeners(&mut self, evt: &Event) -> (failures: Vec<String>)
        ensures
            notified_view(
                old(self).spec_listeners(),
                final(self).spec_listeners(),
                evt@.store_id,
                evt@.state,
                failures@,
            ),
            final(self).spec_store() == old(self).spec_store(),
            final(self).spec_dispatching() == old(self).spec_dispatching(),
    {
        let ghost orig = self.lsnrs@;
        let snap: usize = self.lsnrs.len();
        let mut failures: Vec<String> = Vec::new();
        let mut i: usize = 0;
        proof {
            assert(orig.take(0) =~= Seq::<EventListener>::empty());
            assert(self.lsnrs@.skip(snap as int) =~= Seq::<EventListener>::empty());
        }
        while i < snap
            invariant
                snap == orig.len(),
                0 <= i <= snap,
                self.lsnrs@.len() == orig.len() + all_spawns(orig.take(i as int)).len(),
                forall|k: int| 0 <= k < i && orig[k].failing ==> self.lsnrs@[k] == orig[k],
                forall|k: int|
                    0 <= k < i && !orig[k].failing ==> notified_one(
                        orig[k],
                        #[trigger] self.lsnrs@[k],
                        evt@.store_id,
                        evt@.state,
                    ),
                forall|k: int| i <= k < snap ==> self.lsnrs@[k] == orig[k],
                failures@ == failed_names(orig.take(i as int)),
                self.lsnrs@.skip(snap as int) == all_spawns(orig.take(i as int)),
                self.store == old(self).store,
                self.dispatching == old(self).dispatching,
            decreases snap - i,
        {
            let ghost prev = self.lsnrs@;
            let mut l = self.lsnrs.remove(i);
            assert(l == orig[i as int]);
            if l.failing {
                failures.push(l.name.clone());
                self.lsnrs.insert(i, l);
                proof {
                    assert(self.lsnrs@ =~= prev);
                }
            } else {
                l.received.push(evt.clone());
                proof {
                    assert(l.received@.subrange(0, orig[i as int].received@.len() as int)
                        =~= orig[i as int].received@);
                }
                let EventListener { name, failing, registers, received } = l;
                let mut regs = registers;
                let replacement = EventListener {
                    name,
                    failing,
                    registers: Vec::new(),
                    received,
                };
                self.lsnrs.insert(i, replacement);
                proof {
                    assert(self.lsnrs@ =~= prev.update(i as int, replacement));
                }
                self.lsnrs.append(&mut regs);
                proof {
                    assert(self.lsnrs@.skip(snap as int) =~= prev.skip(snap as int)
                        + orig[i as int].registers@);
                }
            }
            i = i + 1;
            proof {
                assert(orig.take(i as int).drop_last() =~= orig.take(i as int - 1));
                assert(orig.take(i as int).last() == orig[i as int - 1]);
            }
        }
        proof {
            assert(orig.take(snap as int) =~= orig);
        }
        failures
    }
}

impl EventProducer for StoreManager {
    open spec fn listeners(&self) -> Seq<EventListener> {
        self.spec_listeners()
    }

    open spec fn registration_frame(pre: Self, post: Self) -> bool {
        post.spec_store() == pre.spec_store() && post.spec_dispatching()
            == pre.spec_dispatching()
    }

    fn register_listener(&mut self, lsnr: EventListener) {
        self.lsnrs.push(lsnr);
    }
}

impl Dispatcher for StoreManager {
    open spec fn dispatch_req(&self) -> bool {
        true
    }

    open spec fn dispatch_ens(
        pre: Self,
        post: Self,
        action: Action,
        r: Result<DispatchReport, StoreError>,
    ) -> bool {
        manager_dispatch_ens(pre, post, action, r)
    }

    fn dispatch(&mut self, action: &Action) -> (r: Result<DispatchReport, StoreError>) {
        if self.dispatching {
            return Err(StoreError::Reentrancy);
        }
        self.dispatching = true;
        let snap = self.lsnrs.len();
        match self.store.dispatch(action) {
            Err(e) => {
                self.dispatching = false;
                Err(StoreError::Reduction(e))
            },
            Ok(false) => {
                self.dispatching = false;
                Ok(DispatchReport { changed: false, notified: 0, failures: Vec::new() })
            },
            Ok(true) => {
                let evt = Event::new(self.store.get_id().clone(), self.store.current_state());
                let failures = self.inform_listeners(&evt);
                self.dispatching = false;
                proof {
                    lemma_failed_names_len(old(self).spec_listeners());
                }
                let notified = snap - failures.len();
                Ok(DispatchReport { changed: true, notified, failures })
            },
        }
    }
}

} // verus!
