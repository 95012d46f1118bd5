use vstd::prelude::*;

verus! {

/// The failures that the bridge reports to its callers.
#[derive(Clone, Debug, PartialEq)]
pub enum BridgeError {
    /// Encoding the arguments or decoding a result failed.
    SerializationError(String),
    /// The webview refused the script, the script threw, or no outcome came
    /// back in time.
    ExecuteError(String),
    /// The override registry could not be reached.
    MockError(String),
}

impl BridgeError {
    /// The text carried by the error.
    pub open spec fn text(&self) -> Seq<char> {
        match self {
            BridgeError::SerializationError(m) => m@,
            BridgeError::ExecuteError(m) => m@,
            BridgeError::MockError(m) => m@,
        }
    }

    /// The error as the caller sees it at the command boundary.
    pub fn message(&self) -> (r: String)
        ensures
            r@ == self.text(),
    {
        match self {
            BridgeError::SerializationError(m) => m.clone(),
            BridgeError::ExecuteError(m) => m.clone(),
            BridgeError::MockError(m) => m.clone(),
        }
    }
}

} // verus!
