//! Session registry and lifecycle rules for the monocle daemon's session-host coordinator.
//!
//! The library holds the registry of sessions, every state transition the daemon
//! performs on it, the broadcasts each transition emits (always a state change before
//! the list update), the validation of identifiers and display names, the wire framing
//! of control messages, and the decisions taken on signal and message outcomes.
//! The daemon around it performs the process, socket and file work.

pub mod model;
pub mod codes;

pub use model::{IpcOp, SessionState, SessionStatus, EngineError, SessionError, IoError, IoErrorKind};
pub use codes::session_error_to_code;
pub mod names;
pub mod frame;
pub mod sidecar;
pub mod sidecar_json;
pub mod protocol;
pub mod signals;
pub mod host;
pub mod table;
pub mod flows;
pub mod laws;
