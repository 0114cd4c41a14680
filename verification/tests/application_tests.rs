use laatoocore::action::Action;
use laatoocore::application::Application;
use laatoocore::error::{ReduceError, StoreError};
use laatoocore::event::EventListener;
use laatoocore::reducer::{Op, Reducer, Rule};
use laatoocore::store::GenericStore;
use laatoocore::storemanager::Dispatcher;
use laatoocore::utils::StringMapValue;

fn make_store(id: &str, kind: &str, op: Op, start: StringMapValue) -> GenericStore {
    let rules = vec![Rule::new(String::from(kind), op)];
    GenericStore::new(String::from(id), start, Reducer::new(rules))
}

fn counter_app() -> Application {
    let mut app = Application::new();
    let store = make_store("counter", "INCR", Op::Increment, StringMapValue::Int(0));
    app.register_store(store, String::from("INCR")).unwrap();
    app
}

fn incr(n: i64) -> Action {
    Action::new(String::from("INCR"), StringMapValue::Int(n))
}

#[test]
fn test_application() {
    let _app = Application::new();
}

#[test]
fn test_store_works() {
    let mut app = Application::new();
    let store = make_store("Test Data", "TestStoreAction", Op::Increment, StringMapValue::Int(0));
    let store_id = String::from(store.get_id().as_str());
    app.register_store(store, String::from("TestStoreAction")).unwrap();
    app.register_listener(&store_id, EventListener::new(String::from("printer"))).unwrap();
    let act = Action::new(String::from("TestStoreAction"), StringMapValue::Int(2));
    app.dispatch(&act).unwrap();
    assert_eq!(2 + 2, 4);
}

#[test]
fn scenario_counter_dispatch_notifies_once() {
    let mut app = counter_app();
    let id = String::from("counter");
    app.register_listener(&id, EventListener::new(String::from("l1"))).unwrap();
    let report = app.dispatch(&incr(1)).unwrap();
    assert!(report.changed);
    assert_eq!(report.notified, 1);
    assert!(report.failures.is_empty());
    assert!(app.get_state(&id).unwrap().equals(&StringMapValue::Int(1)));
    let listeners = app.get_listeners(&id).unwrap();
    assert_eq!(listeners.len(), 1);
    assert_eq!(listeners[0].invocations(), 1);
    let evt = listeners[0].received_event(0);
    assert_eq!(evt.store_id.as_str(), "counter");
    assert!(evt.state.equals(&StringMapValue::Int(1)));
}

#[test]
fn scenario_unrouted_kind_is_routing_error() {
    let mut app = counter_app();
    let act = Action::new(String::from("UNKNOWN"), StringMapValue::Null);
    assert_eq!(app.dispatch(&act).unwrap_err(), StoreError::Routing);
    let id = String::from("counter");
    assert!(app.get_state(&id).unwrap().equals(&StringMapValue::Int(0)));
}

#[test]
fn scenario_listener_on_unknown_store_is_routing_error() {
    let mut app = counter_app();
    let missing = String::from("never-registered");
    let err = app
        .register_listener(&missing, EventListener::new(String::from("l1")))
        .unwrap_err();
    assert_eq!(err, StoreError::Routing);
}

#[test]
fn scenario_malformed_payload_surfaces_error_without_notification() {
    let mut app = counter_app();
    let id = String::from("counter");
    app.register_listener(&id, EventListener::new(String::from("l1"))).unwrap();
    let act = Action::new(String::from("INCR"), StringMapValue::Text(String::from("oops")));
    let err = app.dispatch(&act).unwrap_err();
    assert_eq!(err, StoreError::Reduction(ReduceError::PayloadKind));
    assert!(app.get_state(&id).unwrap().equals(&StringMapValue::Int(0)));
    assert_eq!(app.get_listeners(&id).unwrap()[0].invocations(), 0);
}

#[test]
fn atomicity_failed_reduction_keeps_state() {
    let mut app = counter_app();
    let id = String::from("counter");
    app.dispatch(&incr(41)).unwrap();
    let before = app.get_state(&id).unwrap();
    let act = Action::new(String::from("INCR"), StringMapValue::Bool(true));
    assert!(app.dispatch(&act).is_err());
    let after = app.get_state(&id).unwrap();
    assert!(before.equals(&after));
    assert!(after.equals(&StringMapValue::Int(41)));
}

#[test]
fn noop_dispatch_suppresses_notification() {
    let mut app = counter_app();
    let id = String::from("counter");
    app.register_listener(&id, EventListener::new(String::from("l1"))).unwrap();
    let report = app.dispatch(&incr(0)).unwrap();
    assert!(!report.changed);
    assert_eq!(report.notified, 0);
    assert!(report.failures.is_empty());
    assert_eq!(app.get_listeners(&id).unwrap()[0].invocations(), 0);
}

#[test]
fn routing_touches_only_the_store_registered_for_the_kind() {
    let mut app = counter_app();
    let other = make_store("flag", "FLIP", Op::Toggle, StringMapValue::Bool(false));
    app.register_store(other, String::from("FLIP")).unwrap();
    let counter_id = String::from("counter");
    let flag_id = String::from("flag");
    app.register_listener(&flag_id, EventListener::new(String::from("flag-watcher"))).unwrap();

    app.dispatch(&incr(3)).unwrap();
    assert!(app.get_state(&counter_id).unwrap().equals(&StringMapValue::Int(3)));
    assert!(app.get_state(&flag_id).unwrap().equals(&StringMapValue::Bool(false)));
    assert_eq!(app.get_listeners(&flag_id).unwrap()[0].invocations(), 0);
}

#[test]
fn failing_listener_does_not_stop_later_listeners() {
    let mut app = counter_app();
    let id = String::from("counter");
    app.register_listener(&id, EventListener::new_failing(String::from("l1"))).unwrap();
    app.register_listener(&id, EventListener::new(String::from("l2"))).unwrap();
    let report = app.dispatch(&incr(1)).unwrap();
    assert!(report.changed);
    assert_eq!(report.notified, 1);
    assert_eq!(report.failures.len(), 1);
    assert_eq!(report.failures[0].as_str(), "l1");
    let listeners = app.get_listeners(&id).unwrap();
    assert_eq!(listeners[0].invocations(), 0);
    assert_eq!(listeners[1].invocations(), 1);
}

#[test]
fn listener_registered_mid_pass_is_invoked_next_pass_only() {
    let mut app = counter_app();
    let id = String::from("counter");
    let late = EventListener::new(String::from("late"));
    let registering = EventListener::new_registering(String::from("l1"), vec![late]);
    app.register_listener(&id, registering).unwrap();

    app.dispatch(&incr(1)).unwrap();
    {
        let listeners = app.get_listeners(&id).unwrap();
        assert_eq!(listeners.len(), 2);
        assert_eq!(listeners[0].invocations(), 1);
        assert_eq!(listeners[1].name.as_str(), "late");
        assert_eq!(listeners[1].invocations(), 0);
    }

    app.dispatch(&incr(1)).unwrap();
    {
        let listeners = app.get_listeners(&id).unwrap();
        assert_eq!(listeners.len(), 2);
        assert_eq!(listeners[0].invocations(), 2);
        assert_eq!(listeners[1].invocations(), 1);
        let evt = listeners[1].received_event(0);
        assert!(evt.state.equals(&StringMapValue::Int(2)));
    }
}

#[test]
fn duplicate_store_id_is_rejected_and_original_kept() {
    let mut app = counter_app();
    let id = String::from("counter");
    app.register_listener(&id, EventListener::new(String::from("l1"))).unwrap();
    let clash = make_store("counter", "OTHER", Op::Replace, StringMapValue::Null);
    let err = app.register_store(clash, String::from("OTHER")).unwrap_err();
    assert_eq!(err, StoreError::DuplicateRegistration);
    assert!(app.get_state(&id).unwrap().equals(&StringMapValue::Int(0)));
    assert_eq!(app.get_listeners(&id).unwrap().len(), 1);
    app.dispatch(&incr(2)).unwrap();
    assert!(app.get_state(&id).unwrap().equals(&StringMapValue::Int(2)));
}

#[test]
fn duplicate_action_kind_is_rejected() {
    let mut app = counter_app();
    let clash = make_store("other", "INCR", Op::Increment, StringMapValue::Int(0));
    let err = app.register_store(clash, String::from("INCR")).unwrap_err();
    assert_eq!(err, StoreError::DuplicateRegistration);
    let missing = String::from("other");
    assert_eq!(app.get_state(&missing).unwrap_err(), StoreError::Routing);
}

#[test]
fn get_state_unknown_store_is_routing_error() {
    let app = Application::new();
    let missing = String::from("nobody");
    assert_eq!(app.get_state(&missing).unwrap_err(), StoreError::Routing);
}

#[test]
fn routed_action_with_no_matching_rule_is_noop() {
    let mut app = Application::new();
    let store = make_store("counter", "INCR", Op::Increment, StringMapValue::Int(5));
    app.register_store(store, String::from("RESET")).unwrap();
    let id = String::from("counter");
    app.register_listener(&id, EventListener::new(String::from("l1"))).unwrap();
    let act = Action::new(String::from("RESET"), StringMapValue::Int(0));
    let report = app.dispatch(&act).unwrap();
    assert!(!report.changed);
    assert!(app.get_state(&id).unwrap().equals(&StringMapValue::Int(5)));
    assert_eq!(app.get_listeners(&id).unwrap()[0].invocations(), 0);
}

#[test]
fn several_kinds_can_route_to_one_store() {
    let mut app = Application::new();
    let rules = vec![
        Rule::new(String::from("INCR"), Op::Increment),
        Rule::new(String::from("RESET"), Op::Replace),
    ];
    let store = GenericStore::new(
        String::from("counter"),
        StringMapValue::Int(0),
        Reducer::new(rules),
    );
    app.register_store(store, String::from("INCR")).unwrap();
    let id = String::from("counter");
    app.register_action_kind(String::from("RESET"), &id).unwrap();

    app.dispatch(&incr(9)).unwrap();
    assert!(app.get_state(&id).unwrap().equals(&StringMapValue::Int(9)));
    let reset = Action::new(String::from("RESET"), StringMapValue::Int(0));
    let report = app.dispatch(&reset).unwrap();
    assert!(report.changed);
    assert!(app.get_state(&id).unwrap().equals(&StringMapValue::Int(0)));

    assert_eq!(
        app.register_action_kind(String::from("INCR"), &id).unwrap_err(),
        StoreError::DuplicateRegistration
    );
    let missing = String::from("nowhere");
    assert_eq!(
        app.register_action_kind(String::from("OTHER"), &missing).unwrap_err(),
        StoreError::Routing
    );
}

#[test]
fn raising_listener_registers_nothing() {
    let mut app = counter_app();
    let id = String::from("counter");
    let spawn = EventListener::new(String::from("spawned"));
    let mut raising = EventListener::new_failing(String::from("bad"));
    raising.registers = vec![spawn];
    app.register_listener(&id, raising).unwrap();
    let report = app.dispatch(&incr(1)).unwrap();
    assert_eq!(report.failures.len(), 1);
    let listeners = app.get_listeners(&id).unwrap();
    assert_eq!(listeners.len(), 1);
    assert_eq!(listeners[0].invocations(), 0);
    assert_eq!(listeners[0].registers.len(), 1);
}
