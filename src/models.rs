use vstd::prelude::*;

pub use serde_json::Value as JsonValue;

verus! {

/// A request to run a script in the webview.
#[derive(Clone, Debug, PartialEq)]
pub struct ExecuteRequest {
    /// The script; its value is the outcome of the request.
    pub script: String,
    /// Values handed to the script, by position.
    pub args: Vec<JsonValue>,
}

/// An override of a command: what a call of `command` answers instead of
/// reaching its handler.
#[derive(Clone, Debug, PartialEq)]
pub struct MockConfig {
    /// The command that is overridden.
    pub command: String,
    /// A literal value to answer with.
    pub return_value: Option<JsonValue>,
    /// The source of a function to run in place of the handler.
    pub implementation: Option<String>,
}

/// What a `MockConfig` holds, as mathematical values.
pub struct MockSpec {
    pub command: Seq<char>,
    pub return_value: Option<JsonValue>,
    pub implementation: Option<Seq<char>>,
}

impl View for MockConfig {
    type V = MockSpec;

    open spec fn view(&self) -> MockSpec {
        MockSpec {
            command: self.command@,
            return_value: self.return_value,
            implementation: match self.implementation {
                Some(s) => Some(s@),
                None => None,
            },
        }
    }
}

impl MockConfig {
    /// An independent copy of the override.
    pub fn duplicate(&self) -> (r: MockConfig)
        ensures
            r@ == self@,
    {
        let return_value = match &self.return_value {
            Some(v) => Some(crate::json::copy_value(v)),
            None => None,
        };
        let implementation = match &self.implementation {
            Some(s) => Some(s.clone()),
            None => None,
        };
        MockConfig { command: self.command.clone(), return_value, implementation }
    }
}

} // verus!
