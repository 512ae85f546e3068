use vstd::prelude::*;

use crate::model::{EngineError, IpcOp, SessionError};

verus! {

/// The wire code of an error raised by an operation of kind `op`.
pub open spec fn error_code(op: IpcOp, e: SessionError) -> Seq<char> {
    match e {
        SessionError::SessionNotFound { .. } => "session_not_found"@,
        SessionError::SpawnFailed { .. } => "spawn_failed"@,
        SessionError::SidecarWriteFailed { .. } => "sidecar_write_failed"@,
        SessionError::SessionIdCollision { .. } => "session_id_collision"@,
        SessionError::SessionHostDead { .. } => if op == IpcOp::Kill {
            "kill_failed"@
        } else {
            "attach_failed"@
        },
        SessionError::InvalidSessionName { .. } => "rename_failed"@,
        SessionError::SessionNotReady { .. } => "session_not_ready"@,
        SessionError::Io(_) => "invalid_request"@,
        SessionError::EngineError(inner) => match inner {
            EngineError::UnsupportedOperation(_) => "spawn_unsupported"@,
            EngineError::BinaryNotFound(_) => "binary_not_found"@,
            EngineError::InvalidPath(_) => "invalid_spawn_arg"@,
            EngineError::Other(_) => "invalid_request"@,
        },
    }
}

/// Maps a `SessionError` to its IPC error code.
///
/// `op` distinguishes `SessionHostDead` on the kill path (`"kill_failed"`) from every
/// other path (`"attach_failed"`).
pub fn session_error_to_code(op: IpcOp, e: &SessionError) -> (code: &'static str)
    ensures
        code@ == error_code(op, *e),
{
    match e {
        SessionError::SessionNotFound { .. } => "session_not_found",
        SessionError::SpawnFailed { .. } => "spawn_failed",
        SessionError::SidecarWriteFailed { .. } => "sidecar_write_failed",
        SessionError::SessionIdCollision { .. } => "session_id_collision",
        SessionError::SessionHostDead { .. } => match op {
            IpcOp::Kill => "kill_failed",
            _ => "attach_failed",
        },
        SessionError::InvalidSessionName { .. } => "rename_failed",
        SessionError::SessionNotReady { .. } => "session_not_ready",
        SessionError::Io(_) => "invalid_request",
        SessionError::EngineError(inner) => match inner {
            EngineError::UnsupportedOperation(_) => "spawn_unsupported",
            EngineError::BinaryNotFound(_) => "binary_not_found",
            EngineError::InvalidPath(_) => "invalid_spawn_arg",
            EngineError::Other(_) => "invalid_request",
        },
    }
}

} // verus!
