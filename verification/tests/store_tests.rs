use laatoocore::action::Action;
use laatoocore::error::ReduceError;
use laatoocore::event::{EventListener, EventProducer};
use laatoocore::storemanager::{Dispatcher, StoreManager};
use laatoocore::reducer::{Op, Reducer, Rule};
use laatoocore::store::GenericStore;
use laatoocore::utils::StringMapValue;

fn counter_store(start: i64) -> GenericStore {
    let rules = vec![Rule::new(String::from("INCR"), Op::Increment)];
    GenericStore::new(
        String::from("counter"),
        StringMapValue::Int(start),
        Reducer::new(rules),
    )
}

#[test]
fn it_works() {
    assert_eq!(2 + 2, 4);
}

#[test]
fn store_works() {
    assert_eq!(2 + 2, 4);
}

#[test]
fn store_exposes_id_and_states() {
    let store = counter_store(7);
    assert_eq!(store.get_id().as_str(), "counter");
    assert!(store.initial_state().equals(&StringMapValue::Int(7)));
    assert!(store.current_state().equals(&StringMapValue::Int(7)));
}

#[test]
fn store_dispatch_commits_synchronously() {
    let mut store = counter_store(0);
    let act = Action::new(String::from("INCR"), StringMapValue::Int(5));
    let changed = store.dispatch(&act).unwrap();
    assert!(changed);
    assert!(store.current_state().equals(&StringMapValue::Int(5)));
    assert!(store.initial_state().equals(&StringMapValue::Int(0)));
}

#[test]
fn store_dispatch_unknown_kind_is_benign_noop() {
    let mut store = counter_store(3);
    let act = Action::new(String::from("SOMETHING_ELSE"), StringMapValue::Int(5));
    let changed = store.dispatch(&act).unwrap();
    assert!(!changed);
    assert!(store.current_state().equals(&StringMapValue::Int(3)));
}

#[test]
fn store_dispatch_rejection_leaves_state_untouched() {
    let mut store = counter_store(3);
    let act = Action::new(String::from("INCR"), StringMapValue::Text(String::from("oops")));
    let err = store.dispatch(&act).unwrap_err();
    assert_eq!(err, ReduceError::PayloadKind);
    assert!(store.current_state().equals(&StringMapValue::Int(3)));
}

#[test]
fn reducer_replace_reports_noop_on_equal_value() {
    let rules = vec![Rule::new(String::from("SET"), Op::Replace)];
    let reducer = Reducer::new(rules);
    let state = StringMapValue::Text(String::from("same"));
    let act = Action::new(String::from("SET"), StringMapValue::Text(String::from("same")));
    let (next, changed) = reducer.reduce(&state, &act).unwrap();
    assert!(!changed);
    assert!(next.equals(&state));

    let act2 = Action::new(String::from("SET"), StringMapValue::Text(String::from("new")));
    let (next2, changed2) = reducer.reduce(&state, &act2).unwrap();
    assert!(changed2);
    assert!(next2.equals(&StringMapValue::Text(String::from("new"))));
}

#[test]
fn reducer_increment_overflow_is_rejected() {
    let rules = vec![Rule::new(String::from("INCR"), Op::Increment)];
    let reducer = Reducer::new(rules);
    let state = StringMapValue::Int(i64::MAX);
    let act = Action::new(String::from("INCR"), StringMapValue::Int(1));
    assert_eq!(reducer.reduce(&state, &act).unwrap_err(), ReduceError::Overflow);

    let act_zero = Action::new(String::from("INCR"), StringMapValue::Int(0));
    let (next, changed) = reducer.reduce(&state, &act_zero).unwrap();
    assert!(!changed);
    assert!(next.equals(&state));
}

#[test]
fn reducer_toggle_negates_and_rejects_wrong_state() {
    let rules = vec![Rule::new(String::from("FLIP"), Op::Toggle)];
    let reducer = Reducer::new(rules);
    let act = Action::new(String::from("FLIP"), StringMapValue::Null);
    let (next, changed) = reducer.reduce(&StringMapValue::Bool(false), &act).unwrap();
    assert!(changed);
    assert!(next.equals(&StringMapValue::Bool(true)));

    let err = reducer.reduce(&StringMapValue::Int(1), &act).unwrap_err();
    assert_eq!(err, ReduceError::StateKind);
}

#[test]
fn reducer_first_matching_rule_wins() {
    let rules = vec![
        Rule::new(String::from("K"), Op::Toggle),
        Rule::new(String::from("K"), Op::Replace),
    ];
    let reducer = Reducer::new(rules);
    let act = Action::new(String::from("K"), StringMapValue::Int(9));
    let (next, changed) = reducer.reduce(&StringMapValue::Bool(true), &act).unwrap();
    assert!(changed);
    assert!(next.equals(&StringMapValue::Bool(false)));
}

#[test]
fn action_exposes_kind_and_payload() {
    let act = Action::new(String::from("K"), StringMapValue::Int(9));
    assert_eq!(act.get_type().as_str(), "K");
    assert!(act.get_payload().equals(&StringMapValue::Int(9)));
}

#[test]
fn store_manager_dispatches_and_notifies_directly() {
    let mut mgr = StoreManager::new(counter_store(0));
    assert_eq!(mgr.store_id().as_str(), "counter");
    mgr.register_listener(EventListener::new(String::from("watcher")));
    let act = Action::new(String::from("INCR"), StringMapValue::Int(2));
    let report = mgr.dispatch(&act).unwrap();
    assert!(report.changed);
    assert_eq!(report.notified, 1);
    assert!(mgr.current_state().equals(&StringMapValue::Int(2)));
    assert_eq!(mgr.get_listeners()[0].invocations(), 1);
}
