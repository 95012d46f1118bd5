//! Where an inbound call of a command goes: to its override, if one is in
//! force, before it can reach the command's handler.
use vstd::prelude::*;

use crate::json::copy_value;
use crate::mock_store::{MockStore, RegistryState};
use crate::models::JsonValue;

verus! {

/// How a call is answered.
#[derive(Debug, PartialEq)]
pub enum Route {
    /// Run this function source in place of the handler.
    Implementation(String),
    /// Answer with this value.
    Value(JsonValue),
    /// Answer with JSON null: the override names neither a value nor a function.
    Null,
    /// No override: the handler runs.
    Handler,
}

/// The route of a call of `command` in registry state `st`. An override's
/// function takes precedence over its value.
pub open spec fn route_matches(st: RegistryState, command: Seq<char>, r: Route) -> bool {
    match st.lookup(command) {
        None => r is Handler,
        Some(m) => match m.implementation {
            Some(src) => r matches Route::Implementation(s) && s@ == src,
            None => match m.return_value {
                Some(v) => r == Route::Value(v),
                None => r is Null,
            },
        },
    }
}

/// Decides how a call of `command` is answered.
pub fn route(store: &MockStore, command: &str) -> (r: Route)
    ensures
        route_matches(store.state(), command@, r),
{
    match store.get_mock(command) {
        None => Route::Handler,
        Some(m) => match &m.implementation {
            Some(src) => Route::Implementation(src.clone()),
            None => match &m.return_value {
                Some(v) => Route::Value(copy_value(v)),
                None => Route::Null,
            },
        },
    }
}

/// A command with an override in force never reaches its handler.
pub proof fn lemma_mocked_skips_handler(st: RegistryState, command: Seq<char>, r: Route)
    requires
        st.lookup(command) is Some,
        route_matches(st, command, r),
    ensures
        !(r is Handler),
{
}

} // verus!
