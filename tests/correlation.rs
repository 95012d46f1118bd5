use serde_json::Value;
use tauri_plugin_wdio::correlation::{event_topic, CorrelationId, Correlator, Wait, EXECUTE_TIMEOUT_NANOS};
use tauri_plugin_wdio::BridgeError;

fn timeout_error() -> BridgeError {
    BridgeError::ExecuteError("Timeout waiting for execute result".to_string())
}

#[test]
fn same_clock_reading_gives_distinct_ids_and_topics() {
    let mut table = Correlator::new();
    let a = table.allocate(1_000).unwrap();
    let b = table.allocate(1_000).unwrap();
    assert_ne!(a, b);
    assert_ne!(event_topic(a), event_topic(b));
    assert!(table.is_live(a) && table.is_live(b));
}

#[test]
fn topic_has_namespace_clock_and_serial() {
    let id = CorrelationId { timestamp: 1_700_000_000_123_456_789, serial: 0 };
    assert_eq!(event_topic(id), "wdio:execute:1700000000123456789-0");
    let id = CorrelationId { timestamp: 0, serial: 42 };
    assert_eq!(event_topic(id), "wdio:execute:0-42");
}

#[test]
fn delivery_for_one_id_does_not_reach_another() {
    let mut table = Correlator::new();
    let a = table.allocate(5).unwrap();
    let b = table.allocate(5).unwrap();
    assert!(table.deliver(a, Ok(Value::from(1))));
    assert_eq!(table.poll(b, 6), Wait::Pending);
    assert_eq!(table.poll(a, 6), Wait::Done(Ok(Value::from(1))));
    assert!(table.is_live(b));
    assert!(!table.is_live(a));
}

#[test]
fn first_delivery_wins() {
    let mut table = Correlator::new();
    let a = table.allocate(0).unwrap();
    assert!(table.deliver(a, Ok(Value::from(1))));
    assert!(!table.deliver(a, Ok(Value::from(2))));
    assert_eq!(table.poll(a, 0), Wait::Done(Ok(Value::from(1))));
}

#[test]
fn pending_until_deadline_then_timeout_and_torn_down() {
    let mut table = Correlator::new();
    let a = table.allocate(100).unwrap();
    assert_eq!(table.poll(a, 100 + EXECUTE_TIMEOUT_NANOS - 1), Wait::Pending);
    assert!(table.is_live(a));
    assert_eq!(table.poll(a, 100 + EXECUTE_TIMEOUT_NANOS), Wait::Done(Err(timeout_error())));
    assert!(!table.is_live(a));
}

#[test]
fn late_delivery_is_dropped() {
    let mut table = Correlator::new();
    let a = table.allocate(0).unwrap();
    let b = table.allocate(0).unwrap();
    assert_eq!(table.poll(a, EXECUTE_TIMEOUT_NANOS), Wait::Done(Err(timeout_error())));
    assert!(!table.deliver(a, Ok(Value::from(9))));
    assert!(!table.is_live(a));
    assert_eq!(table.poll(b, 1), Wait::Pending);
}

#[test]
fn delivered_outcome_beats_deadline() {
    let mut table = Correlator::new();
    let a = table.allocate(0).unwrap();
    let failure = BridgeError::ExecuteError("boom".to_string());
    assert!(table.deliver(a, Err(failure.clone())));
    assert_eq!(table.poll(a, EXECUTE_TIMEOUT_NANOS * 2), Wait::Done(Err(failure)));
}

#[test]
fn deadline_saturates_near_clock_end() {
    let mut table = Correlator::new();
    let a = table.allocate(u128::MAX - 1).unwrap();
    assert_eq!(table.poll(a, u128::MAX - 1), Wait::Pending);
    assert_eq!(table.poll(a, u128::MAX), Wait::Done(Err(timeout_error())));
}

#[test]
fn cancel_tears_down_only_its_slot() {
    let mut table = Correlator::new();
    let a = table.allocate(0).unwrap();
    let b = table.allocate(0).unwrap();
    table.cancel(a);
    assert!(!table.is_live(a));
    assert!(table.is_live(b));
    table.cancel(a);
    assert!(table.is_live(b));
}
