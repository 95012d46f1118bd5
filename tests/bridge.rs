use serde_json::Value;
use tauri_plugin_wdio::bridge::{begin_execute, build_script, completion_envelope, decode_completion, decode_result, script_with_args};
use tauri_plugin_wdio::correlation::{event_topic, Correlator, Wait};
use tauri_plugin_wdio::{BridgeError, ExecuteRequest};

fn request(script: &str, args: Vec<Value>) -> ExecuteRequest {
    ExecuteRequest { script: script.to_string(), args }
}

#[test]
fn no_args_keeps_script_verbatim() {
    let r = build_script(&request("1+1", vec![])).unwrap();
    assert_eq!(r, "1+1");
}

#[test]
fn args_are_bound_before_the_script() {
    let r = build_script(&request("__wdio_args[1]", vec![Value::from(1), Value::from("x")])).unwrap();
    assert_eq!(r, "(function() { const __wdio_args = [1,\"x\"]; return (__wdio_args[1]); })()");
    let inner = r.split("const __wdio_args = ").nth(1).unwrap().split("; return").next().unwrap();
    let parsed: Value = serde_json::from_str(inner).unwrap();
    assert_eq!(parsed, Value::Array(vec![Value::from(1), Value::from("x")]));
}

#[test]
fn scoping_is_plain_text() {
    assert_eq!(script_with_args("a", "[]"), "(function() { const __wdio_args = []; return (a); })()");
}

#[test]
fn envelope_reports_on_topic_both_ways() {
    let e = completion_envelope("1+1", "t:1");
    assert!(e.contains("await (1+1)"));
    assert_eq!(e.matches("'t:1'").count(), 4);
    assert!(e.contains("window.__TAURI__.event.emit('t:1', { result: jsonResult })"));
    assert!(e.contains("emit('t:1', { error: errorMsg })"));
    assert!(e.contains("import('@tauri-apps/api/event')"));
}

#[test]
fn begin_execute_prepares_wrapped_script() {
    let mut table = Correlator::new();
    let p = begin_execute(&mut table, &request("1+1", vec![]), 77).unwrap();
    assert_eq!(p.id.timestamp, 77);
    assert_eq!(p.topic, event_topic(p.id));
    assert_eq!(p.script, completion_envelope("1+1", &p.topic));
    assert!(table.is_live(p.id));
}

#[test]
fn result_text_is_decoded_again() {
    assert_eq!(decode_completion("{\"result\":\"2\"}"), Some(Ok(Value::from(2))));
    assert_eq!(
        decode_completion("{\"result\":\"{\\\"a\\\":[true]}\"}"),
        Some(Ok(serde_json::from_str::<Value>("{\"a\":[true]}").unwrap()))
    );
}

#[test]
fn non_string_result_is_taken_as_is() {
    assert_eq!(decode_completion("{\"result\":5}"), Some(Ok(Value::from(5))));
    assert_eq!(decode_result(&Value::Bool(false)), Ok(Value::Bool(false)));
}

#[test]
fn undecodable_result_is_a_serialization_error() {
    match decode_completion("{\"result\":\"not json\"}") {
        Some(Err(BridgeError::SerializationError(m))) => assert!(m.starts_with("Failed to parse result JSON: ")),
        other => panic!("unexpected {:?}", other),
    }
}

#[test]
fn thrown_error_carries_its_message() {
    assert_eq!(
        decode_completion("{\"error\":\"undefinedFn is not defined\"}"),
        Some(Err(BridgeError::ExecuteError("undefinedFn is not defined".to_string())))
    );
}

#[test]
fn non_string_error_is_unknown() {
    assert_eq!(
        decode_completion("{\"error\":3}"),
        Some(Err(BridgeError::ExecuteError("Unknown error".to_string())))
    );
}

#[test]
fn report_without_members_or_json_is_dropped() {
    assert_eq!(decode_completion("{}"), None);
    assert_eq!(decode_completion("{\"other\":1}"), None);
    assert_eq!(decode_completion("not json"), None);
}

#[test]
fn execute_one_plus_one_yields_two() {
    let mut table = Correlator::new();
    let p = begin_execute(&mut table, &request("1+1", vec![]), 0).unwrap();
    let outcome = decode_completion("{\"result\":\"2\"}").unwrap();
    assert!(table.deliver(p.id, outcome));
    assert_eq!(table.poll(p.id, 1), Wait::Done(Ok(Value::from(2))));
    assert!(!table.is_live(p.id));
}

#[test]
fn execute_throwing_script_is_not_a_timeout() {
    let mut table = Correlator::new();
    let p = begin_execute(&mut table, &request("undefinedFn()", vec![]), 0).unwrap();
    let outcome = decode_completion("{\"error\":\"undefinedFn is not defined\"}").unwrap();
    assert!(table.deliver(p.id, outcome));
    assert_eq!(
        table.poll(p.id, 1),
        Wait::Done(Err(BridgeError::ExecuteError("undefinedFn is not defined".to_string())))
    );
}

#[test]
fn execute_without_answer_times_out() {
    let mut table = Correlator::new();
    let p = begin_execute(&mut table, &request("new Promise(() => {})", vec![]), 0).unwrap();
    assert_eq!(table.poll(p.id, 29_999_999_999), Wait::Pending);
    assert_eq!(
        table.poll(p.id, 30_000_000_000),
        Wait::Done(Err(BridgeError::ExecuteError("Timeout waiting for execute result".to_string())))
    );
    assert!(!table.is_live(p.id));
}

#[test]
fn error_message_is_its_text() {
    assert_eq!(BridgeError::MockError("locked".to_string()).message(), "locked");
    assert_eq!(BridgeError::SerializationError("s".to_string()).message(), "s");
}
