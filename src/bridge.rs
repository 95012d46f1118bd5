//! One execution from the host's side: the script that is injected into the
//! webview, and the reading of the report that comes back.
use vstd::prelude::*;

use crate::correlation::{event_topic, topic, CorrelationId, Correlator, Outcome, Slot, deadline_after};
use crate::error::BridgeError;
use crate::json::{encode_array, error_text, json_field, json_parse, json_str, json_text, member, parse_json, string_text, copy_value};
use crate::models::{ExecuteRequest, JsonValue};

verus! {

/// A script that evaluates `script` where `__wdio_args` holds the array that
/// `args_json` denotes.
pub open spec fn scoped_script(script: Seq<char>, args_json: Seq<char>) -> Seq<char> {
    "(function() { const __wdio_args = "@ + args_json + "; return ("@ + script + "); })()"@
}

/// The script that runs for `script` with `args`: the script itself without
/// arguments, else the script scoped under their JSON text. `None` where the
/// arguments cannot be encoded.
pub open spec fn effective_script(script: Seq<char>, args: Seq<JsonValue>) -> Option<Seq<char>> {
    if args.len() == 0 {
        Some(script)
    } else {
        match json_text(args) {
            Some(j) => Some(scoped_script(script, j)),
            None => None,
        }
    }
}

/// The text that runs `script` in the webview, awaits its value, and
/// reports on `topic` either `{ result: <JSON text of the value> }` or
/// `{ error: <message> }`, through the global event API where it is present
/// and through the imported event module otherwise.
pub open spec fn envelope(script: Seq<char>, topic: Seq<char>) -> Seq<char> {
    "(async () => {\n  try {\n    const result = await ("@ + script
        + ");\n    const jsonResult = JSON.stringify(result);\n    if (window.__TAURI__?.event?.emit) {\n      window.__TAURI__.event.emit('"@
        + topic + "', { result: jsonResult });\n    } else {\n      const { emit } = await import('@tauri-apps/api/event');\n      emit('"@
        + topic
        + "', { result: jsonResult });\n    }\n  } catch (error) {\n    const errorMsg = error.message || String(error);\n    if (window.__TAURI__?.event?.emit) {\n      window.__TAURI__.event.emit('"@
        + topic + "', { error: errorMsg });\n    } else {\n      const { emit } = await import('@tauri-apps/api/event');\n      emit('"@
        + topic + "', { error: errorMsg });\n    }\n  }\n})()"@
}

/// The text of the failure reported when the arguments cannot be encoded
/// starts so.
pub open spec fn args_failure_prefix() -> Seq<char> {
    "Failed to serialize args: "@
}

/// The text of the failure reported when a result cannot be decoded starts so.
pub open spec fn result_failure_prefix() -> Seq<char> {
    "Failed to parse result JSON: "@
}

/// The text of the failure reported when the table has no id left.
pub open spec fn exhausted_text() -> Seq<char> {
    "No correlation id is left for another execution"@
}

/// The message of a reported error that is no string.
pub open spec fn unknown_error_text() -> Seq<char> {
    "Unknown error"@
}

/// What the report held in its `result` member stands for: a JSON text is
/// decoded once more, any other value is the result itself.
pub open spec fn result_meaning(result: JsonValue) -> Option<JsonValue> {
    match json_str(result) {
        Some(text) => json_parse(text),
        None => Some(result),
    }
}

/// Whether `r` is the outcome that the `result` member `result` stands
/// for: its meaning, or a serialization failure where it has none.
pub open spec fn result_outcome(result: JsonValue, r: Outcome) -> bool {
    match result_meaning(result) {
        Some(v) => r == Ok::<JsonValue, BridgeError>(v),
        None => r matches Err(BridgeError::SerializationError(m))
            && m@.len() >= result_failure_prefix().len()
            && m@.subrange(0, result_failure_prefix().len() as int) == result_failure_prefix(),
    }
}

/// Whether `r` is what the decoded report `report` carries: the outcome of
/// its `result` member if it has one, else its `error` member as a failure,
/// else nothing.
pub open spec fn report_outcome(report: JsonValue, r: Option<Outcome>) -> bool {
    match json_field(report, "result"@) {
        Some(res) => r matches Some(o) && result_outcome(res, o),
        None => match json_field(report, "error"@) {
            Some(e) => r matches Some(Err(BridgeError::ExecuteError(m)))
                && m@ == match json_str(e) {
                    Some(t) => t,
                    None => unknown_error_text(),
                },
            None => r is None,
        },
    }
}

/// Scopes `script` under the arguments whose JSON text is `args_json`.
pub fn script_with_args(script: &str, args_json: &str) -> (r: String)
    ensures
        r@ == scoped_script(script@, args_json@),
{
    let mut r = String::from_str("(function() { const __wdio_args = ");
    r.append(args_json);
    r.append("; return (");
    r.append(script);
    r.append("); })()");
    r
}

/// The script that runs for `request`.
pub fn build_script(request: &ExecuteRequest) -> (r: Result<String, BridgeError>)
    ensures
        match effective_script(request.script@, request.args@) {
            Some(s) => r matches Ok(t) && t@ == s,
            None => r matches Err(BridgeError::SerializationError(m))
                && m@.len() >= args_failure_prefix().len()
                && m@.subrange(0, args_failure_prefix().len() as int) == args_failure_prefix(),
        },
        request.args@.len() == 0 ==> (r matches Ok(t) && t@ == request.script@),
{
    if request.args.len() == 0 {
        return Ok(request.script.clone());
    }
    match encode_array(&request.args) {
        Ok(json) => Ok(script_with_args(request.script.as_str(), json.as_str())),
        Err(e) => {
            let mut m = String::from_str("Failed to serialize args: ");
            let d = error_text(&e);
            m.append(d.as_str());
            assert(m@.subrange(0, args_failure_prefix().len() as int) =~= args_failure_prefix());
            Err(BridgeError::SerializationError(m))
        },
    }
}

/// The text injected into the webview to run `script` and report on `topic`.
pub fn completion_envelope(script: &str, topic: &str) -> (r: String)
    ensures
        r@ == envelope(script@, topic@),
{
    let mut r = String::from_str("(async () => {\n  try {\n    const result = await (");
    r.append(script);
    r.append(");\n    const jsonResult = JSON.stringify(result);\n    if (window.__TAURI__?.event?.emit) {\n      window.__TAURI__.event.emit('");
    r.append(topic);
    r.append("', { result: jsonResult });\n    } else {\n      const { emit } = await import('@tauri-apps/api/event');\n      emit('");
    r.append(topic);
    r.append("', { result: jsonResult });\n    }\n  } catch (error) {\n    const errorMsg = error.message || String(error);\n    if (window.__TAURI__?.event?.emit) {\n      window.__TAURI__.event.emit('");
    r.append(topic);
    r.append("', { error: errorMsg });\n    } else {\n      const { emit } = await import('@tauri-apps/api/event');\n      emit('");
    r.append(topic);
    r.append("', { error: errorMsg });\n    }\n  }\n})()");
    r
}

/// An execution that is ready to be injected.
pub struct Prepared {
    /// The id under which its outcome is awaited.
    pub id: CorrelationId,
    /// The topic on which the webview reports.
    pub topic: String,
    /// The text to inject.
    pub script: String,
}

/// Readies `request` for injection at clock reading `now`: builds its
/// script, opens its slot and wraps the script so that it reports on the
/// slot's topic. On failure no slot is opened.
pub fn begin_execute(table: &mut Correlator, request: &ExecuteRequest, now: u128) -> (r: Result<Prepared, BridgeError>)
    ensures
        match effective_script(request.script@, request.args@) {
            None => {
                &&& r matches Err(BridgeError::SerializationError(m))
                &&& final(table).slots() == old(table).slots()
                &&& final(table).next_serial() == old(table).next_serial()
            },
            Some(s) => if old(table).next_serial() == u64::MAX {
                &&& r matches Err(BridgeError::ExecuteError(m)) && m@ == exhausted_text()
                &&& final(table).slots() == old(table).slots()
                &&& final(table).next_serial() == old(table).next_serial()
            } else {
                &&& r matches Ok(p)
                &&& p.id == (CorrelationId { timestamp: now, serial: old(table).next_serial() })
                &&& !old(table).slots().contains_key(p.id)
                &&& p.topic@ == topic(p.id)
                &&& p.script@ == envelope(s, topic(p.id))
                &&& final(table).slots() == old(table).slots().insert(
                    p.id,
                    Slot { deadline: deadline_after(now), outcome: None },
                )
                &&& final(table).next_serial() == old(table).next_serial() + 1
            },
        },
{
    let script = match build_script(request) {
        Ok(s) => s,
        Err(e) => return Err(e),
    };
    let id = match table.allocate(now) {
        Some(id) => id,
        None => {
            return Err(BridgeError::ExecuteError(String::from_str("No correlation id is left for another execution")));
        },
    };
    let topic = event_topic(id);
    let wrapped = completion_envelope(script.as_str(), topic.as_str());
    Ok(Prepared { id, topic, script: wrapped })
}

/// The outcome that the `result` member of a report stands for.
pub fn decode_result(result: &JsonValue) -> (r: Outcome)
    ensures
        result_outcome(*result, r),
{
    match string_text(result) {
        Some(text) => match parse_json(text) {
            Ok(v) => Ok(v),
            Err(e) => {
                let mut m = String::from_str("Failed to parse result JSON: ");
                let d = error_text(&e);
                m.append(d.as_str());
                assert(m@.subrange(0, result_failure_prefix().len() as int) =~= result_failure_prefix());
                Err(BridgeError::SerializationError(m))
            },
        },
        None => Ok(copy_value(result)),
    }
}

/// The outcome that a decoded report carries: its `result` member if it has
/// one, else its `error` member as a failure. `None` for a report with
/// neither, which is dropped.
pub fn completion_from_report(report: &JsonValue) -> (r: Option<Outcome>)
    ensures
        report_outcome(*report, r),
{
    match member(report, "result") {
        Some(res) => Some(decode_result(res)),
        None => match member(report, "error") {
            Some(e) => {
                let m = match string_text(e) {
                    Some(t) => t.to_owned(),
                    None => String::from_str("Unknown error"),
                };
                Some(Err(BridgeError::ExecuteError(m)))
            },
            None => None,
        },
    }
}

/// The outcome carried by a report as it arrives on an execution's topic.
/// `None` for text that is no JSON, or a report with neither member.
pub fn decode_completion(payload: &str) -> (r: Option<Outcome>)
    ensures
        match json_parse(payload@) {
            None => r is None,
            Some(report) => report_outcome(report, r),
        },
{
    match parse_json(payload) {
        Ok(report) => completion_from_report(&report),
        Err(_) => None,
    }
}

} // verus!
