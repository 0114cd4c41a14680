//! The composition root: one value owning every registered store manager,
//! the action-kind routing table, and the named-item registries.
//!
//! Managers live in one owning arena; the routing table maps action kinds to
//! arena indices (many kinds may route to one store), and store-id lookup
//! scans the arena itself. Registration is the only way entries are added;
//! nothing is replaced or removed, and duplicates are rejected so that an
//! already-registered store and its listeners can never be orphaned.

use crate::action::Action;
use crate::error::StoreError;
use crate::event::{EventListener, EventProducer};
use crate::registry::{registry_lookup, RegisteredItem, Registry, RegistryStore};
use crate::store::GenericStore;
use crate::storemanager::{manager_dispatch_ens, DispatchReport, Dispatcher, StoreManager};
use crate::utils::StringMapValue;
use vstd::prelude::*;

verus! {

/// The arena index the first routing entry for `kind` points at, if any.
pub open spec fn kind_lookup(table: Seq<(String, usize)>, kind: Seq<char>) -> Option<usize>
    decreases table.len(),
{
    if table.len() == 0 {
        None
    } else if table[0].0@ == kind {
        Some(table[0].1)
    } else {
        kind_lookup(table.skip(1), kind)
    }
}

/// The arena index of the first manager whose store carries `id`, if any.
pub open spec fn id_lookup(managers: Seq<StoreManager>, id: Seq<char>) -> Option<int>
    decreases managers.len(),
{
    if managers.len() == 0 {
        None
    } else if managers[0].spec_store().spec_id() == id {
        Some(0)
    } else {
        match id_lookup(managers.skip(1), id) {
            Some(j) => Some(j + 1),
            None => None,
        }
    }
}

/// A found routing entry names an entry of the table.
pub proof fn lemma_kind_lookup_in_table(table: Seq<(String, usize)>, kind: Seq<char>)
    ensures
        match kind_lookup(table, kind) {
            Some(u) => exists|j: int|
                0 <= j < table.len() && #[trigger] table[j].1 == u && table[j].0@ == kind,
            None => true,
        },
    decreases table.len(),
{
    if table.len() > 0 && table[0].0@ != kind {
        lemma_kind_lookup_in_table(table.skip(1), kind);
        if kind_lookup(table, kind) is Some {
            let j = choose|j: int|
                0 <= j < table.skip(1).len() && #[trigger] table.skip(1)[j].1 == kind_lookup(
                    table.skip(1),
                    kind,
                )->Some_0 && table.skip(1)[j].0@ == kind;
            assert(table[j + 1].1 == kind_lookup(table, kind)->Some_0);
        }
    }
}

/// A found store index is in range and names the store looked up.
pub proof fn lemma_id_lookup_range(managers: Seq<StoreManager>, id: Seq<char>)
    ensures
        match id_lookup(managers, id) {
            Some(j) => 0 <= j < managers.len() && managers[j].spec_store().spec_id() == id,
            None => true,
        },
    decreases managers.len(),
{
    if managers.len() > 0 && managers[0].spec_store().spec_id() != id {
        lemma_id_lookup_range(managers.skip(1), id);
    }
}

/// The process-wide composition root. Constructed explicitly by the caller
/// and passed around by reference; there is no implicit global instance.
#[derive(Debug)]
pub struct Application {
    managers: Vec<StoreManager>,
    kind_table: Vec<(String, usize)>,
    services: RegistryStore,
    configuration: RegistryStore,
}

/// What registering a store does: when the action kind already routes
/// somewhere, or the store's id is already registered, the registration is
/// rejected and the application — the earlier store and its listeners
/// included — is untouched; otherwise a fresh manager owning the store is
/// appended and the kind routes to it.
pub open spec fn register_store_ens(
    pre: Application,
    post: Application,
    store: GenericStore,
    action_type: String,
    r: Result<(), StoreError>,
) -> bool {
    if kind_lookup(pre.spec_kinds(), action_type@) is Some || id_lookup(
        pre.spec_managers(),
        store.spec_id(),
    ) is Some {
        r == Err::<(), StoreError>(StoreError::DuplicateRegistration) && post == pre
    } else {
        &&& r == Ok::<(), StoreError>(())
        &&& post.spec_managers().len() == pre.spec_managers().len() + 1
        &&& post.spec_managers().take(pre.spec_managers().len() as int) == pre.spec_managers()
        &&& post.spec_managers().last().spec_store() == store
        &&& !post.spec_managers().last().spec_dispatching()
        &&& post.spec_managers().last().spec_listeners() == Seq::<EventListener>::empty()
        &&& post.spec_kinds() == pre.spec_kinds().push(
            (action_type, pre.spec_managers().len() as usize),
        )
        &&& post.spec_services() == pre.spec_services()
        &&& post.spec_configuration() == pre.spec_configuration()
    }
}

/// What routing one more action kind to an already-registered store does:
/// a kind that already routes somewhere is rejected, an unknown store id is
/// reported, and otherwise only the routing table grows — the routing is
/// many-to-one, several kinds may reach the same store.
pub open spec fn register_action_kind_ens(
    pre: Application,
    post: Application,
    action_type: String,
    store_id: Seq<char>,
    r: Result<(), StoreError>,
) -> bool {
    if kind_lookup(pre.spec_kinds(), action_type@) is Some {
        r == Err::<(), StoreError>(StoreError::DuplicateRegistration) && post == pre
    } else {
        match id_lookup(pre.spec_managers(), store_id) {
            None => r == Err::<(), StoreError>(StoreError::Routing) && post == pre,
            Some(i) => {
                &&& r == Ok::<(), StoreError>(())
                &&& post.spec_managers() == pre.spec_managers()
                &&& post.spec_kinds() == pre.spec_kinds().push((action_type, i as usize))
                &&& post.spec_services() == pre.spec_services()
                &&& post.spec_configuration() == pre.spec_configuration()
            },
        }
    }
}

/// What registering a listener does: an unknown store id is reported, not
/// silently ignored; otherwise exactly the named store's listener collection
/// grows by the new record, at the end.
pub open spec fn register_listener_ens(
    pre: Application,
    post: Application,
    store_id: Seq<char>,
    lsnr: EventListener,
    r: Result<(), StoreError>,
) -> bool {
    match id_lookup(pre.spec_managers(), store_id) {
        None => r == Err::<(), StoreError>(StoreError::Routing) && post == pre,
        Some(i) => {
            &&& r == Ok::<(), StoreError>(())
            &&& post.spec_managers().len() == pre.spec_managers().len()
            &&& forall|j: int|
                0 <= j < pre.spec_managers().len() && j != i ==> post.spec_managers()[j]
                    == pre.spec_managers()[j]
            &&& post.spec_managers()[i].spec_store() == pre.spec_managers()[i].spec_store()
            &&& post.spec_managers()[i].spec_dispatching() == pre.spec_managers()[i]
                .spec_dispatching()
            &&& post.spec_managers()[i].spec_listeners() == pre.spec_managers()[i]
                .spec_listeners().push(lsnr)
            &&& post.spec_kinds() == pre.spec_kinds()
            &&& post.spec_services() == pre.spec_services()
            &&& post.spec_configuration() == pre.spec_configuration()
        },
    }
}

/// What one application-level dispatch does: an action whose kind routes
/// nowhere is reported as a routing failure and nothing changes; otherwise
/// exactly the routed store's manager performs the dispatch — every other
/// manager, its state and its listeners included, is untouched.
pub open spec fn app_dispatch_ens(
    pre: Application,
    post: Application,
    action: Action,
    r: Result<DispatchReport, StoreError>,
) -> bool {
    match kind_lookup(pre.spec_kinds(), action@.kind) {
        None => r == Err::<DispatchReport, StoreError>(StoreError::Routing) && post == pre,
        Some(u) => {
            &&& post.spec_kinds() == pre.spec_kinds()
            &&& post.spec_services() == pre.spec_services()
            &&& post.spec_configuration() == pre.spec_configuration()
            &&& post.spec_managers().len() == pre.spec_managers().len()
            &&& forall|j: int|
                0 <= j < pre.spec_managers().len() && j != u as int ==> post.spec_managers()[j]
                    == pre.spec_managers()[j]
            &&& manager_dispatch_ens(
                pre.spec_managers()[u as int],
                post.spec_managers()[u as int],
                action,
                r,
            )
        },
    }
}

impl Application {
    /// The arena of managers, one per registered store, in registration
    /// order.
    pub closed spec fn spec_managers(&self) -> Seq<StoreManager> {
        self.managers@
    }

    /// The routing table from action kind to arena index.
    pub closed spec fn spec_kinds(&self) -> Seq<(String, usize)> {
        self.kind_table@
    }

    /// The service registry's entries.
    pub closed spec fn spec_services(&self) -> Seq<(String, RegisteredItem)> {
        self.services@
    }

    /// The configuration registry's entries.
    pub closed spec fn spec_configuration(&self) -> Seq<(String, RegisteredItem)> {
        self.configuration@
    }

    /// Every routing entry points into the arena.
    pub open spec fn wf(&self) -> bool {
        forall|k: int|
            0 <= k < self.spec_kinds().len() ==> (#[trigger] self.spec_kinds()[k]).1
                < self.spec_managers().len()
    }

    pub fn new() -> (r: Application)
        ensures
            r.wf(),
            r.spec_managers() == Seq::<StoreManager>::empty(),
            r.spec_kinds() == Seq::<(String, usize)>::empty(),
            r.spec_services() == Seq::<(String, RegisteredItem)>::empty(),
            r.spec_configuration() == Seq::<(String, RegisteredItem)>::empty(),
    {
        Application {
            managers: Vec::new(),
            kind_table: Vec::new(),
            services: RegistryStore::new(),
            configuration: RegistryStore::new(),
        }
    }

    /// The arena index `kind` routes to, if any.
    fn find_kind(&self, kind: &String) -> (r: Option<usize>)
        ensures
            r == kind_lookup(self.spec_kinds(), kind@),
    {
        let n = self.kind_table.len();
        let mut i: usize = 0;
        assert(self.spec_kinds().skip(0) =~= self.spec_kinds());
        while i < n
            invariant
                n == self.spec_kinds().len(),
                0 <= i <= n,
                kind_lookup(self.spec_kinds(), kind@) == kind_lookup(
                    self.spec_kinds().skip(i as int),
                    kind@,
                ),
            decreases n - i,
        {
            assert(self.spec_kinds().skip(i as int)[0] == self.spec_kinds()[i as int]);
            if self.kind_table[i].0.eq(kind) {
                return Some(self.kind_table[i].1);
            }
            assert(self.spec_kinds().skip(i as int).skip(1) =~= self.spec_kinds().skip(
                i as int + 1,
            ));
            i = i + 1;
        }
        assert(self.spec_kinds().skip(n as int).len() == 0);
        None
    }

    /// The arena index of the store carrying `id`, if any.
    fn find_store(&self, id: &String) -> (r: Option<usize>)
        ensures
            match r {
                Some(u) => id_lookup(self.spec_managers(), id@) == Some(u as int),
                None => id_lookup(self.spec_managers(), id@) is None,
            },
    {
        let n = self.managers.len();
        let mut i: usize = 0;
        assert(self.spec_managers().skip(0) =~= self.spec_managers());
        while i < n
            invariant
                n == self.spec_managers().len(),
                0 <= i <= n,
                id_lookup(self.spec_managers(), id@) == match id_lookup(
                    self.spec_managers().skip(i as int),
                    id@,
                ) {
                    Some(j) => Some(j + i as int),
                    None => None::<int>,
                },
            decreases n - i,
        {
            assert(self.spec_managers().skip(i as int)[0] == self.spec_managers()[i as int]);
            if self.managers[i].store_id().eq(id) {
                return Some(i);
            }
            assert(self.spec_managers().skip(i as int).skip(1) =~= self.spec_managers().skip(
                i as int + 1,
            ));
            i = i + 1;
        }
        assert(self.spec_managers().skip(n as int).len() == 0);
        None
    }

    /// Registers `store` so that actions of kind `action_type` route to it.
    /// Rejected — leaving everything untouched — when the kind already
    /// routes somewhere or the store's id is already taken.
    pub fn register_store(&mut self, store: GenericStore, action_type: String) -> (r: Result<
        (),
        StoreError,
    >)
        requires
            old(self).wf(),
        ensures
            final(self).wf(),
            register_store_ens(*old(self), *final(self), store, action_type, r),
    {
        if self.find_kind(&action_type).is_some() {
            return Err(StoreError::DuplicateRegistration);
        }
        if self.find_store(store.get_id()).is_some() {
            return Err(StoreError::DuplicateRegistration);
        }
        let idx = self.managers.len();
        self.kind_table.push((action_type, idx));
        self.managers.push(StoreManager::new(store));
        proof {
            assert(self.managers@.take(old(self).managers@.len() as int) =~= old(self).managers@);
        }
        Ok(())
    }

    /// Routes one more action kind to the already-registered store carrying
    /// `store_id`; several kinds may route to the same store, but each kind
    /// routes to exactly one.
    pub fn register_action_kind(&mut self, action_type: String, store_id: &String) -> (r: Result<
        (),
        StoreError,
    >)
        requires
            old(self).wf(),
        ensures
            final(self).wf(),
            register_action_kind_ens(*old(self), *final(self), action_type, store_id@, r),
    {
        if self.find_kind(&action_type).is_some() {
            return Err(StoreError::DuplicateRegistration);
        }
        match self.find_store(store_id) {
            None => Err(StoreError::Routing),
            Some(i) => {
                proof {
                    lemma_id_lookup_range(self.spec_managers(), store_id@);
                }
                self.kind_table.push((action_type, i));
                Ok(())
            },
        }
    }

    /// Registers `lsnr` against the store carrying `store_id`; an unknown id
    /// is a routing failure, never a silent no-op.
    pub fn register_listener(&mut self, store_id: &String, lsnr: EventListener) -> (r: Result<
        (),
        StoreError,
    >)
        requires
            old(self).wf(),
        ensures
            final(self).wf(),
            register_listener_ens(*old(self), *final(self), store_id@, lsnr, r),
    {
        match self.find_store(store_id) {
            None => Err(StoreError::Routing),
            Some(i) => {
                proof {
                    lemma_id_lookup_range(self.spec_managers(), store_id@);
                }
                let ghost prev = self.managers@;
                let mut mgr = self.managers.remove(i);
                mgr.register_listener(lsnr);
                self.managers.insert(i, mgr);
                proof {
                    assert(self.managers@ =~= prev.update(i as int, self.managers@[i as int]));
                    assert(self.spec_kinds() == old(self).spec_kinds());
                    assert(self.spec_managers().len() == old(self).spec_managers().len());
                    assert forall|k: int|
                        0 <= k < self.spec_kinds().len() implies (
                        #[trigger] self.spec_kinds()[k]).1 < self.spec_managers().len() by {
                        assert(old(self).spec_kinds()[k].1 < old(self).spec_managers().len());
                    }
                }
                Ok(())
            },
        }
    }

    /// An immutable snapshot of the state of the store carrying `store_id`.
    pub fn get_state(&self, store_id: &String) -> (r: Result<StringMapValue, StoreError>)
        ensures
            match id_lookup(self.spec_managers(), store_id@) {
                None => r == Err::<StringMapValue, StoreError>(StoreError::Routing),
                Some(i) => match r {
                    Ok(v) => v@ == self.spec_managers()[i].spec_store().spec_state(),
                    Err(_) => false,
                },
            },
    {
        match self.find_store(store_id) {
            None => Err(StoreError::Routing),
            Some(i) => {
                proof {
                    lemma_id_lookup_range(self.spec_managers(), store_id@);
                }
                Ok(self.managers[i].current_state())
            },
        }
    }

    /// Read access to the listener records of the store carrying
    /// `store_id`, for hosts that react to the delivery logs.
    pub fn get_listeners(&self, store_id: &String) -> (r: Result<&Vec<EventListener>, StoreError>)
        ensures
            match id_lookup(self.spec_managers(), store_id@) {
                None => r == Err::<&Vec<EventListener>, StoreError>(StoreError::Routing),
                Some(i) => match r {
                    Ok(v) => v@ == self.spec_managers()[i].spec_listeners(),
                    Err(_) => false,
                },
            },
    {
        match self.find_store(store_id) {
            None => Err(StoreError::Routing),
            Some(i) => {
                proof {
                    lemma_id_lookup_range(self.spec_managers(), store_id@);
                }
                Ok(self.managers[i].get_listeners())
            },
        }
    }

    /// Registers `item` under `item_name` in the named registry, shadowing
    /// any earlier registration of that name there.
    pub fn register(&mut self, registry: Registry, item_name: String, item: RegisteredItem)
        ensures
            final(self).spec_managers() == old(self).spec_managers(),
            final(self).spec_kinds() == old(self).spec_kinds(),
            old(self).wf() ==> final(self).wf(),
            match registry {
                Registry::Services => final(self).spec_services() == seq![(item_name, item)]
                    + old(self).spec_services() && final(self).spec_configuration() == old(
                    self,
                ).spec_configuration(),
                Registry::Configuration => final(self).spec_configuration() == seq![
                    (item_name, item),
                ] + old(self).spec_configuration() && final(self).spec_services() == old(
                    self,
                ).spec_services(),
            },
    {
        match registry {
            Registry::Services => self.services.register(item_name, item),
            Registry::Configuration => self.configuration.register(item_name, item),
        }
        proof {
            if old(self).wf() {
                assert forall|k: int|
                    0 <= k < self.spec_kinds().len() implies (
                    #[trigger] self.spec_kinds()[k]).1 < self.spec_managers().len() by {
                    assert(old(self).spec_kinds()[k].1 < old(self).spec_managers().len());
                }
            }
        }
    }

    /// The item `item_name` currently resolves to in the named registry.
    pub fn get_registered_item(&self, registry: Registry, item_name: String) -> (r: Option<
        &RegisteredItem,
    >)
        ensures
            ({
                let entries = match registry {
                    Registry::Services => self.spec_services(),
                    Registry::Configuration => self.spec_configuration(),
                };
                match r {
                    Some(item) => registry_lookup(entries, item_name@) == Some(*item),
                    None => registry_lookup(entries, item_name@) is None,
                }
            }),
    {
        match registry {
            Registry::Services => self.services.get_registered_item(item_name),
            Registry::Configuration => self.configuration.get_registered_item(item_name),
        }
    }
}

impl Dispatcher for Application {
    open spec fn dispatch_req(&self) -> bool {
        self.wf()
    }

    open spec fn dispatch_ens(
        pre: Self,
        post: Self,
        action: Action,
        r: Result<DispatchReport, StoreError>,
    ) -> bool {
        pre.wf() ==> post.wf() && app_dispatch_ens(pre, post, action, r)
    }

    /// Routes `action` by its kind to the one store registered for it and
    /// dispatches there; an unrouted kind is a routing failure, explicitly
    /// distinguishable from "store found but reduction failed".
    fn dispatch(&mut self, action: &Action) -> (r: Result<DispatchReport, StoreError>) {
        match self.find_kind(action.get_type()) {
            None => Err(StoreError::Routing),
            Some(i) => {
                proof {
                    lemma_kind_lookup_in_table(self.spec_kinds(), action@.kind);
                    assert(i < self.managers@.len());
                }
                let ghost prev = self.managers@;
                let mut mgr = self.managers.remove(i);
                let r = mgr.dispatch(action);
                self.managers.insert(i, mgr);
                proof {
                    assert(self.managers@ =~= prev.update(i as int, self.managers@[i as int]));
                }
                r
            },
        }
    }
}

} // verus!
