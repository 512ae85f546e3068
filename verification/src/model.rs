use vstd::prelude::*;

verus! {

/// Lifecycle state of a session-host, as recorded in the registry and the sidecar.
#[derive(Debug, Clone, Copy, PartialEq, Eq, Structural)]
pub enum SessionState {
    Launching,
    Running,
    Detached,
    Terminating,
    Terminated,
}

/// Coarse status shown in session lists.
#[derive(Debug, Clone, Copy, PartialEq, Eq, Structural)]
pub enum SessionStatus {
    Active,
    Idle,
    Stopped,
}

/// The IPC request kind on whose behalf a lifecycle operation ran; it decides the
/// wire code of a dead session-host.
#[derive(Debug, Clone, Copy, PartialEq, Eq, Structural)]
pub enum IpcOp {
    /// SpawnSession request.
    Spawn,
    /// KillSession request.
    Kill,
    /// AttachSession request.
    Attach,
    /// DetachSession request.
    Detach,
    /// RenameSession request.
    Rename,
    /// KeyInput request.
    KeyInput,
    /// ResizePane request.
    Resize,
}

/// Failure of an engine module before any OS process was started.
#[derive(Debug, Clone)]
pub enum EngineError {
    /// The engine does not implement the requested operation.
    UnsupportedOperation(String),
    /// The harness binary could not be located.
    BinaryNotFound(String),
    /// A path argument could not be used.
    InvalidPath(String),
    /// Any other engine failure.
    Other(String),
}

/// The kind of an I/O failure, as far as the daemon tells kinds apart.
#[derive(Debug, Clone, Copy, PartialEq, Eq, Structural)]
pub enum IoErrorKind {
    NotFound,
    PermissionDenied,
    ConnectionRefused,
    ConnectionReset,
    BrokenPipe,
    TimedOut,
    InvalidData,
    UnexpectedEof,
    Other,
}

/// An I/O failure: its kind and its description.
#[derive(Debug, Clone)]
pub struct IoError {
    pub kind: IoErrorKind,
    pub message: String,
}

/// The failure has this kind and this description.
pub open spec fn io_error_is(e: IoError, kind: IoErrorKind, message: Seq<char>) -> bool {
    e.kind == kind && e.message@ == message
}

/// Errors returned by the session lifecycle operations.
#[derive(Debug, Clone)]
pub enum SessionError {
    /// Session ID not found in the registry.
    SessionNotFound { session_id: String },
    /// OS-level process spawn failure after the binary was located.
    SpawnFailed { reason: String },
    /// Sidecar write failed after the OS process was spawned.
    SidecarWriteFailed { path: String, reason: String },
    /// The session ID is already registered.
    SessionIdCollision { session_id: String },
    /// The session-host is dead when the daemon attempts an operation.
    SessionHostDead { session_id: String },
    /// Empty name, name over the length limit, forbidden character, or a rename of a
    /// terminated session.
    InvalidSessionName { reason: String },
    /// The operation needs the control connection, which is not established yet.
    SessionNotReady { session_id: String },
    /// Unexpected I/O error, with its kind and description.
    Io(IoError),
    /// An engine module operation failed before the OS process was spawned.
    EngineError(EngineError),
}

/// Status shown in lists for a state: live sessions are active, detached ones idle,
/// terminating and terminated ones stopped.
pub open spec fn status_of(state: SessionState) -> SessionStatus {
    match state {
        SessionState::Launching | SessionState::Running => SessionStatus::Active,
        SessionState::Detached => SessionStatus::Idle,
        SessionState::Terminating | SessionState::Terminated => SessionStatus::Stopped,
    }
}

/// Exec form of `status_of`.
pub fn session_status(state: SessionState) -> (r: SessionStatus)
    ensures
        r == status_of(state),
{
    match state {
        SessionState::Launching | SessionState::Running => SessionStatus::Active,
        SessionState::Detached => SessionStatus::Idle,
        SessionState::Terminating | SessionState::Terminated => SessionStatus::Stopped,
    }
}

/// A state is terminal once the kill protocol has begun.
pub open spec fn is_terminal(state: SessionState) -> bool {
    state == SessionState::Terminating || state == SessionState::Terminated
}

} // verus!
