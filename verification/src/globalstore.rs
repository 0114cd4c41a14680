//! A single-store container: one store, its subscriptions, and a dispatch
//! entry point, without the application-level routing tables. For hosts
//! whose whole state lives in one store.

use crate::action::Action;
use crate::error::StoreError;
use crate::event::{EventListener, EventProducer};
use crate::store::GenericStore;
use crate::storemanager::{manager_dispatch_ens, DispatchReport, Dispatcher, StoreManager};
use crate::utils::StringMapValue;
use vstd::prelude::*;

verus! {

/// One store with its listeners, dispatchable directly.
#[derive(Debug)]
pub struct GlobalStore {
    manager: StoreManager,
}

impl GlobalStore {
    /// The manager pairing the store with its subscriptions.
    pub closed spec fn spec_manager(&self) -> StoreManager {
        self.manager
    }

    pub fn new(store: GenericStore) -> (r: GlobalStore)
        ensures
            r.spec_manager().spec_store() == store,
            !r.spec_manager().spec_dispatching(),
            r.spec_manager().spec_listeners() == Seq::<EventListener>::empty(),
    {
        GlobalStore { manager: StoreManager::new(store) }
    }

    /// Sends `action` through the store's reducer; on a state-changing
    /// success the subscriptions are notified before the call returns, and
    /// on any failure the state is bit-for-bit what it was.
    pub fn dispatch(&mut self, action: &Action) -> (r: Result<DispatchReport, StoreError>)
        ensures
            manager_dispatch_ens(
                old(self).spec_manager(),
                final(self).spec_manager(),
                *action,
                r,
            ),
    {
        self.manager.dispatch(action)
    }

    /// An immutable snapshot of the store's current state.
    pub fn get_state(&self) -> (r: StringMapValue)
        ensures
            r@ == self.spec_manager().spec_store().spec_state(),
    {
        self.manager.current_state()
    }

    /// Appends a subscription; it is first notified on the next
    /// state-changing dispatch.
    pub fn subscribe(&mut self, lsnr: EventListener)
        ensures
            final(self).spec_manager().spec_listeners() == old(
                self,
            ).spec_manager().spec_listeners().push(lsnr),
            final(self).spec_manager().spec_store() == old(self).spec_manager().spec_store(),
            final(self).spec_manager().spec_dispatching() == old(
                self,
            ).spec_manager().spec_dispatching(),
    {
        self.manager.register_listener(lsnr);
    }

    /// Read access to the subscription records, for hosts that react to the
    /// delivery logs.
    pub fn get_listeners(&self) -> (r: &Vec<EventListener>)
        ensures
            r@ == self.spec_manager().spec_listeners(),
    {
        self.manager.get_listeners()
    }
}

impl EventProducer for GlobalStore {
    open spec fn listeners(&self) -> Seq<EventListener> {
        self.spec_manager().spec_listeners()
    }

    open spec fn registration_frame(pre: Self, post: Self) -> bool {
        post.spec_manager().spec_store() == pre.spec_manager().spec_store()
            && post.spec_manager().spec_dispatching() == pre.spec_manager().spec_dispatching()
    }

    fn register_listener(&mut self, lsnr: EventListener) {
        self.manager.register_listener(lsnr);
    }
}

} // verus!
