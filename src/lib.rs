//! Host-side core of a webview automation bridge: a registry of command
//! overrides, a table of outstanding script executions keyed by correlation
//! id, the text that is injected into the webview to run a script and report
//! its outcome, and the reading of that report.

pub mod bridge;
pub mod correlation;
pub mod decimal;
pub mod dispatch;
pub mod error;
pub mod json;
pub mod keyed;
pub mod mock_store;
pub mod models;

pub use error::BridgeError;
pub use mock_store::MockStore;
pub use models::{ExecuteRequest, JsonValue, MockConfig};
