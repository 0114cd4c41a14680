use laatoocore::action::Action;
use laatoocore::error::{ReduceError, StoreError};
use laatoocore::event::EventListener;
use laatoocore::globalstore::GlobalStore;
use laatoocore::http::{HttpHeader, HttpMethod, HttpRequest};
use laatoocore::reducer::{Op, Reducer, Rule};
use laatoocore::registry::{RegisteredItem, Registry, RegistryStore};
use laatoocore::service::Service;
use laatoocore::store::GenericStore;
use laatoocore::utils::{Constructible, StringMap, StringMapValue, StringsMap};

#[test]
fn test_stringmap() {
    let mut map = StringMap::new();
    map.insert(
        String::from("abc"),
        StringMapValue::Text(String::from("def")),
    );
    let got = map.get(&String::from("abc")).unwrap();
    assert!(got.equals(&StringMapValue::Text(String::from("def"))));
}

#[test]
fn stringmap_last_insert_wins_and_misses_are_none() {
    let mut map = StringMap::new();
    assert!(map.get(&String::from("k")).is_none());
    map.insert(String::from("k"), StringMapValue::Int(1));
    map.insert(String::from("k"), StringMapValue::Int(2));
    assert!(map.get(&String::from("k")).unwrap().equals(&StringMapValue::Int(2)));
    assert!(map.get(&String::from("other")).is_none());
}

#[test]
fn stringsmap_binds_and_shadows() {
    let mut map = StringsMap::new();
    map.insert(String::from("a"), String::from("1"));
    map.insert(String::from("b"), String::from("2"));
    map.insert(String::from("a"), String::from("3"));
    assert_eq!(map.get(&String::from("a")).unwrap().as_str(), "3");
    assert_eq!(map.get(&String::from("b")).unwrap().as_str(), "2");
    assert!(map.get(&String::from("c")).is_none());
}

#[test]
fn value_equality_is_by_content() {
    assert!(StringMapValue::Null.equals(&StringMapValue::Null));
    assert!(!StringMapValue::Null.equals(&StringMapValue::Bool(false)));
    assert!(StringMapValue::Text(String::from("x")).equals(&StringMapValue::Text(String::from("x"))));
    assert!(!StringMapValue::Text(String::from("x")).equals(&StringMapValue::Text(String::from("y"))));
    assert!(!StringMapValue::Int(0).equals(&StringMapValue::Bool(false)));
}

#[test]
fn global_store_dispatch_and_subscribe() {
    let rules = vec![Rule::new(String::from("INCR"), Op::Increment)];
    let store = GenericStore::new(
        String::from("counter"),
        StringMapValue::Int(10),
        Reducer::new(rules),
    );
    let mut global = GlobalStore::new(store);
    global.subscribe(EventListener::new(String::from("watcher")));
    let act = Action::new(String::from("INCR"), StringMapValue::Int(5));
    let report = global.dispatch(&act).unwrap();
    assert!(report.changed);
    assert_eq!(report.notified, 1);
    assert!(global.get_state().equals(&StringMapValue::Int(15)));
    let listeners = global.get_listeners();
    assert_eq!(listeners[0].invocations(), 1);
    assert!(listeners[0].received_event(0).state.equals(&StringMapValue::Int(15)));
}

#[test]
fn global_store_failed_reduction_is_reported() {
    let rules = vec![Rule::new(String::from("INCR"), Op::Increment)];
    let store = GenericStore::new(
        String::from("counter"),
        StringMapValue::Int(10),
        Reducer::new(rules),
    );
    let mut global = GlobalStore::new(store);
    let act = Action::new(String::from("INCR"), StringMapValue::Null);
    assert!(matches!(global.dispatch(&act), Err(StoreError::Reduction(_))));
    assert!(global.get_state().equals(&StringMapValue::Int(10)));
}

#[test]
fn registry_store_registers_and_looks_up() {
    let mut reg = RegistryStore::new();
    assert!(reg.get_registered_item(String::from("svc")).is_none());
    reg.register(
        String::from("svc"),
        RegisteredItem::Text(String::from("first")),
    );
    reg.register(
        String::from("svc"),
        RegisteredItem::Text(String::from("second")),
    );
    match reg.get_registered_item(String::from("svc")).unwrap() {
        RegisteredItem::Text(s) => assert_eq!(s.as_str(), "second"),
        RegisteredItem::Service(_) => panic!("expected a text item"),
    }
}

#[test]
fn application_registries_are_separate() {
    let mut app = laatoocore::application::Application::new();
    app.register(
        Registry::Services,
        String::from("ping"),
        RegisteredItem::Service(Service::Http(
            String::from("https://example.test/ping"),
            HttpMethod::GET,
            HttpRequest::new(String::new(), StringsMap::new(), StringsMap::new()),
        )),
    );
    app.register(
        Registry::Configuration,
        String::from("ping"),
        RegisteredItem::Text(String::from("enabled")),
    );
    match app.get_registered_item(Registry::Services, String::from("ping")).unwrap() {
        RegisteredItem::Service(Service::Http(url, method, _)) => {
            assert_eq!(url.as_str(), "https://example.test/ping");
            assert_eq!(*method, HttpMethod::GET);
        },
        RegisteredItem::Text(_) => panic!("expected a service item"),
    }
    match app.get_registered_item(Registry::Configuration, String::from("ping")).unwrap() {
        RegisteredItem::Text(s) => assert_eq!(s.as_str(), "enabled"),
        RegisteredItem::Service(_) => panic!("expected a text item"),
    }
    assert!(app.get_registered_item(Registry::Configuration, String::from("pong")).is_none());
}

#[test]
fn http_method_names() {
    assert_eq!(HttpMethod::GET.name(), "GET");
    assert_eq!(HttpMethod::POST.name(), "POST");
    assert_eq!(HttpMethod::PUT.name(), "PUT");
    assert_eq!(HttpMethod::DELETE.name(), "DELETE");
}

#[test]
fn http_header_holds_name_and_value() {
    let h = HttpHeader::new(String::from("accept"), String::from("application/json"));
    assert_eq!(h.name.as_str(), "accept");
    assert_eq!(h.value.as_str(), "application/json");
}

#[test]
fn errors_describe_themselves() {
    assert_eq!(
        StoreError::Routing.describe(),
        "no store is registered for this action kind or store id"
    );
    assert_eq!(
        StoreError::DuplicateRegistration.describe(),
        "the store id or action kind is already registered"
    );
    assert_eq!(
        StoreError::Reentrancy.describe(),
        "a dispatch is already in progress on this store"
    );
    assert_eq!(
        StoreError::Reduction(ReduceError::Overflow).describe(),
        "transition leaves the integer range"
    );
    assert_eq!(
        ReduceError::StateKind.describe(),
        "state has the wrong shape for this rule"
    );
    assert_eq!(
        ReduceError::PayloadKind.describe(),
        "payload has the wrong shape for this rule"
    );
}
