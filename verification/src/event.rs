//! The typed notification channel: change events, listener records, and the
//! producer interface that store managers implement.
//!
//! A listener is a record, not a callback: it carries a name, a description
//! of how its callback behaves when invoked (does it raise? does it register
//! further listeners?), and the log of events it has been invoked with. The
//! notification loop interprets that description, so isolation and
//! snapshotting are proved rather than hoped for; the host reads the logs
//! and reacts outside the library.

use crate::utils::{StringMapValue, ValueModel};
use vstd::prelude::*;

verus! {

/// Mathematical model of an [`Event`].
pub ghost struct EventModel {
    pub store_id: Seq<char>,
    pub state: ValueModel,
}

/// A change notification: which store changed, and a snapshot of its new
/// state, sufficient for a listener to re-read the store's value.
#[derive(Debug)]
pub struct Event {
    pub store_id: String,
    pub state: StringMapValue,
}

impl View for Event {
    type V = EventModel;

    open spec fn view(&self) -> EventModel {
        EventModel { store_id: self.store_id@, state: self.state@ }
    }
}

impl Clone for Event {
    fn clone(&self) -> (r: Self)
        ensures
            r == *self,
    {
        Event { store_id: self.store_id.clone(), state: self.state.clone() }
    }
}

impl Event {
    pub fn new(store_id: String, state: StringMapValue) -> (r: Event)
        ensures
            r@.store_id == store_id@,
            r@.state == state@,
    {
        Event { store_id, state }
    }
}

/// A subscriber to one store's change events.
///
/// `failing` describes a callback that raises when invoked: the notification
/// loop records its name in the failure report and moves on, and no event is
/// appended to its log. `registers` describes a callback that registers
/// further listeners while being notified: they are appended after the
/// point-in-time snapshot being iterated, so they are first invoked on the
/// next state-changing dispatch, never the current one. The registration
/// description is consumed the first time it runs; a raising callback
/// raises on every invocation.
#[derive(Debug)]
pub struct EventListener {
    pub name: String,
    pub failing: bool,
    pub registers: Vec<EventListener>,
    pub received: Vec<Event>,
}

impl EventListener {
    /// A listener whose callback neither raises nor registers.
    pub fn new(name: String) -> (r: EventListener)
        ensures
            r.name@ == name@,
            !r.failing,
            r.registers@ == Seq::<EventListener>::empty(),
            r.received@ == Seq::<Event>::empty(),
    {
        EventListener { name, failing: false, registers: Vec::new(), received: Vec::new() }
    }

    /// A listener whose callback raises when invoked.
    pub fn new_failing(name: String) -> (r: EventListener)
        ensures
            r.name@ == name@,
            r.failing,
            r.registers@ == Seq::<EventListener>::empty(),
            r.received@ == Seq::<Event>::empty(),
    {
        EventListener { name, failing: true, registers: Vec::new(), received: Vec::new() }
    }

    /// A listener whose callback registers the given listeners when invoked.
    pub fn new_registering(name: String, registers: Vec<EventListener>) -> (r: EventListener)
        ensures
            r.name@ == name@,
            !r.failing,
            r.registers == registers,
            r.received@ == Seq::<Event>::empty(),
    {
        EventListener { name, failing: false, registers, received: Vec::new() }
    }

    /// How often this listener has been invoked so far.
    pub fn invocations(&self) -> (r: usize)
        ensures
            r == self.received@.len(),
    {
        self.received.len()
    }

    /// The event of the `i`-th invocation.
    pub fn received_event(&self, i: usize) -> (r: &Event)
        requires
            i < self.received@.len(),
        ensures
            *r == self.received@[i as int],
    {
        &self.received[i]
    }
}

/// One listener's record before and after it was notified of an event with
/// the given store id and state: the event is appended to its log, and its
/// registration description has been consumed.
pub open spec fn notified_one(
    before: EventListener,
    after: EventListener,
    evt_id: Seq<char>,
    evt_state: ValueModel,
) -> bool {
    &&& after.name == before.name
    &&& after.failing == before.failing
    &&& after.registers@ == Seq::<EventListener>::empty()
    &&& after.received@.len() == before.received@.len() + 1
    &&& after.received@.subrange(0, before.received@.len() as int) == before.received@
    &&& after.received@.last()@.store_id == evt_id
    &&& after.received@.last()@.state == evt_state
}

/// The names of the listeners in `s` whose callbacks raise, in order.
pub open spec fn failed_names(s: Seq<EventListener>) -> Seq<String>
    decreases s.len(),
{
    if s.len() == 0 {
        Seq::empty()
    } else if s.last().failing {
        failed_names(s.drop_last()).push(s.last().name)
    } else {
        failed_names(s.drop_last())
    }
}

/// The listeners registered from within callbacks of `s` during one
/// notification pass, in order; a raising callback registers nothing.
pub open spec fn all_spawns(s: Seq<EventListener>) -> Seq<EventListener>
    decreases s.len(),
{
    if s.len() == 0 {
        Seq::empty()
    } else if s.last().failing {
        all_spawns(s.drop_last())
    } else {
        all_spawns(s.drop_last()) + s.last().registers@
    }
}

/// One full notification pass over the point-in-time snapshot `orig`,
/// leaving the listener collection `cur` and the failure report `failures`:
///
/// - every listener of the snapshot whose callback raises is untouched and
///   its name is collected, in order, in `failures`;
/// - every other listener of the snapshot has the event appended to its log,
///   independently of any other listener's behaviour;
/// - the listeners registered mid-pass stand after the snapshot, exactly as
///   described at registration (none is lost, none was invoked this pass).
pub open spec fn notified_view(
    orig: Seq<EventListener>,
    cur: Seq<EventListener>,
    evt_id: Seq<char>,
    evt_state: ValueModel,
    failures: Seq<String>,
) -> bool {
    &&& cur.len() == orig.len() + all_spawns(orig).len()
    &&& forall|k: int|
        0 <= k < orig.len() && orig[k].failing ==> cur[k] == orig[k]
    &&& forall|k: int|
        0 <= k < orig.len() && !orig[k].failing ==> notified_one(
            orig[k],
            #[trigger] cur[k],
            evt_id,
            evt_state,
        )
    &&& failures == failed_names(orig)
    &&& cur.skip(orig.len() as int) == all_spawns(orig)
}

/// When no callback in the snapshot raises, the failure report is empty.
pub proof fn lemma_failed_names_none(s: Seq<EventListener>)
    requires
        forall|k: int| 0 <= k < s.len() ==> !(#[trigger] s[k]).failing,
    ensures
        failed_names(s) == Seq::<String>::empty(),
    decreases s.len(),
{
    if s.len() > 0 {
        lemma_failed_names_none(s.drop_last());
    }
}

/// When no callback in the snapshot registers listeners, none are spawned.
pub proof fn lemma_all_spawns_none(s: Seq<EventListener>)
    requires
        forall|k: int| 0 <= k < s.len() ==> (#[trigger] s[k]).registers@.len() == 0,
    ensures
        all_spawns(s) == Seq::<EventListener>::empty(),
    decreases s.len(),
{
    if s.len() > 0 {
        lemma_all_spawns_none(s.drop_last());
        assert(s.last().registers@.len() == 0);
        if !s.last().failing {
            assert(all_spawns(s) =~= all_spawns(s.drop_last()) + s.last().registers@);
            assert(all_spawns(s) =~= Seq::<EventListener>::empty());
        }
    }
}

/// A source of typed events that listeners can be registered on.
pub trait EventProducer: Sized {
    /// The listeners currently registered, in registration order.
    spec fn listeners(&self) -> Seq<EventListener>;

    /// What, besides the listener collection, registration leaves untouched.
    spec fn registration_frame(pre: Self, post: Self) -> bool;

    /// Appends `lsnr` to the listener collection; safe to describe in a
    /// listener's own registration description as well, in which case it
    /// takes effect mid-notification without being visible to the pass in
    /// progress.
    fn register_listener(&mut self, lsnr: EventListener)
        ensures
            final(self).listeners() == old(self).listeners().push(lsnr),
            Self::registration_frame(*old(self), *final(self)),
    ;
}

} // verus!
