//! The generic named-item registry used for service and configuration
//! lookup: a string-keyed store of registered items, one per registry kind.

use crate::service::Service;
use vstd::prelude::*;

verus! {

/// Which registry a registration or lookup addresses.
#[derive(Clone, Copy, Debug, PartialEq, Eq, Hash, Structural)]
pub enum Registry {
    Services,
    Configuration,
}

/// What can be registered under a name.
#[derive(Debug)]
pub enum RegisteredItem {
    Text(String),
    Service(Service),
}

/// First-match lookup among registered items; the most recent registration
/// of a name stands first, so it shadows earlier ones.
pub open spec fn registry_lookup(
    entries: Seq<(String, RegisteredItem)>,
    key: Seq<char>,
) -> Option<RegisteredItem>
    decreases entries.len(),
{
    if entries.len() == 0 {
        None
    } else if entries[0].0@ == key {
        Some(entries[0].1)
    } else {
        registry_lookup(entries.skip(1), key)
    }
}

/// One registry: a journal of name-to-item registrations in which the most
/// recent binding of a name is the one a lookup finds.
#[derive(Debug)]
pub struct RegistryStore {
    registry: Vec<(String, RegisteredItem)>,
}

impl View for RegistryStore {
    type V = Seq<(String, RegisteredItem)>;

    closed spec fn view(&self) -> Seq<(String, RegisteredItem)> {
        self.registry@
    }
}

impl RegistryStore {
    /// The item a name currently resolves to, if any.
    pub open spec fn spec_get(&self, key: Seq<char>) -> Option<RegisteredItem> {
        registry_lookup(self@, key)
    }

    pub fn new() -> (r: RegistryStore)
        ensures
            r@ == Seq::<(String, RegisteredItem)>::empty(),
    {
        RegistryStore { registry: Vec::new() }
    }

    /// Registers `item` under `item_name`, shadowing any earlier
    /// registration of that name.
    pub fn register(&mut self, item_name: String, item: RegisteredItem)
        ensures
            final(self)@ == seq![(item_name, item)] + old(self)@,
            forall|k: Seq<char>|
                #[trigger] final(self).spec_get(k) == if k == item_name@ {
                    Some(item)
                } else {
                    old(self).spec_get(k)
                },
    {
        self.registry.insert(0, (item_name, item));
        assert(self.registry@ =~= seq![(item_name, item)] + old(self).registry@);
        assert(self.registry@.skip(1) =~= old(self).registry@);
    }

    /// The item registered under `item_name`, or `None` when the name was
    /// never registered.
    pub fn get_registered_item(&self, item_name: String) -> (r: Option<&RegisteredItem>)
        ensures
            match r {
                Some(item) => self.spec_get(item_name@) == Some(*item),
                None => self.spec_get(item_name@) is None,
            },
    {
        let n = self.registry.len();
        let mut i: usize = 0;
        assert(self@.skip(0) =~= self@);
        while i < n
            invariant
                n == self@.len(),
                0 <= i <= n,
                registry_lookup(self@, item_name@) == registry_lookup(
                    self@.skip(i as int),
                    item_name@,
                ),
            decreases n - i,
        {
            assert(self@.skip(i as int)[0] == self@[i as int]);
            if self.registry[i].0.eq(&item_name) {
                return Some(&self.registry[i].1);
            }
            assert(self@.skip(i as int).skip(1) =~= self@.skip(i as int + 1));
            i = i + 1;
        }
        assert(self@.skip(n as int).len() == 0);
        None
    }
}

} // verus!
