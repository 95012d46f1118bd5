use serde_json::Value;
use tauri_plugin_wdio::dispatch::{route, Route};
use tauri_plugin_wdio::{MockConfig, MockStore};

fn config(command: &str, value: Option<Value>, implementation: Option<&str>) -> MockConfig {
    MockConfig {
        command: command.to_string(),
        return_value: value,
        implementation: implementation.map(|s| s.to_string()),
    }
}

#[test]
fn set_then_get_returns_equal_config() {
    let mut store = MockStore::new();
    let cfg = config("foo", Some(Value::from(42)), None);
    store.set_mock("foo".to_string(), cfg.clone());
    assert_eq!(store.get_mock("foo"), Some(&cfg));
    assert_eq!(store.get_mock("bar"), None);
}

#[test]
fn set_overwrites_earlier_config() {
    let mut store = MockStore::new();
    store.set_mock("foo".to_string(), config("foo", Some(Value::from(1)), None));
    let second = config("foo", None, Some("() => 2"));
    store.set_mock("foo".to_string(), second.clone());
    assert_eq!(store.get_mock("foo"), Some(&second));
    assert_eq!(store.get_all_mocks().len(), 1);
}

#[test]
fn clear_forgets_every_mock() {
    let mut store = MockStore::new();
    store.set_mock("a".to_string(), config("a", Some(Value::from(1)), None));
    store.set_mock("b".to_string(), config("b", None, Some("() => 1")));
    store.clear_mocks();
    assert_eq!(store.get_mock("a"), None);
    assert_eq!(store.get_mock("b"), None);
    assert!(store.get_all_mocks().is_empty());
}

#[test]
fn reset_and_restore_forget_every_mock() {
    let mut store = MockStore::new();
    store.set_mock("a".to_string(), config("a", Some(Value::from(1)), None));
    store.reset_mocks();
    assert_eq!(store.get_mock("a"), None);
    store.set_mock("a".to_string(), config("a", Some(Value::from(1)), None));
    store.restore_mocks();
    assert_eq!(store.get_mock("a"), None);
}

#[test]
fn remove_hands_back_the_config() {
    let mut store = MockStore::new();
    let cfg = config("a", Some(Value::from("x")), None);
    store.set_mock("a".to_string(), cfg.clone());
    store.set_mock("b".to_string(), config("b", None, None));
    assert_eq!(store.remove_mock("a"), Some(cfg));
    assert_eq!(store.remove_mock("a"), None);
    assert!(store.get_mock("b").is_some());
}

#[test]
fn get_all_lists_each_command_once() {
    let mut store = MockStore::new();
    store.set_mock("a".to_string(), config("a", None, None));
    store.set_mock("b".to_string(), config("b", None, None));
    store.set_mock("a".to_string(), config("a", Some(Value::Bool(true)), None));
    let all = store.get_all_mocks();
    assert_eq!(all.len(), 2);
    let a = all.iter().find(|e| e.0 == "a").unwrap();
    assert_eq!(a.1.return_value, Some(Value::Bool(true)));
}

#[test]
fn duplicate_is_equal() {
    let cfg = config("a", Some(Value::from(3)), Some("() => 3"));
    assert_eq!(cfg.duplicate(), cfg);
}

#[test]
fn mocked_command_answers_its_value() {
    let mut store = MockStore::new();
    store.set_mock("foo".to_string(), config("foo", Some(Value::from(42)), None));
    assert_eq!(route(&store, "foo"), Route::Value(Value::from(42)));
}

#[test]
fn unmocked_command_reaches_handler() {
    let mut store = MockStore::new();
    assert_eq!(route(&store, "foo"), Route::Handler);
    store.set_mock("foo".to_string(), config("foo", Some(Value::from(42)), None));
    store.clear_mocks();
    assert_eq!(route(&store, "foo"), Route::Handler);
}

#[test]
fn implementation_takes_precedence() {
    let mut store = MockStore::new();
    store.set_mock("foo".to_string(), config("foo", Some(Value::from(42)), Some("() => 7")));
    assert_eq!(route(&store, "foo"), Route::Implementation("() => 7".to_string()));
}

#[test]
fn empty_mock_answers_null() {
    let mut store = MockStore::new();
    store.set_mock("foo".to_string(), config("foo", None, None));
    assert_eq!(route(&store, "foo"), Route::Null);
}
