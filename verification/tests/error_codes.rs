#![allow(non_snake_case)]

use monocle_sessions::{session_error_to_code, EngineError, IoError, IoErrorKind, IpcOp, SessionError};

#[test]
fn test_BC_2_03_008_EC_112_unsupported_operation_maps_to_spawn_unsupported() {
    let e = SessionError::EngineError(EngineError::UnsupportedOperation("spawn_recipe".to_string()));
    let code = session_error_to_code(IpcOp::Spawn, &e);
    assert_eq!(
        code, "spawn_unsupported",
        "UnsupportedOperation must map to 'spawn_unsupported', not '{}'",
        code
    );
    assert_ne!(
        code, "invalid_request",
        "UnsupportedOperation must NOT collapse to 'invalid_request'"
    );
}

#[test]
fn test_BC_2_08_001_session_error_to_code_spawn_failed_maps_to_spawn_failed() {
    let e = SessionError::SpawnFailed { reason: "OS fork failed".to_string() };
    let code = session_error_to_code(IpcOp::Spawn, &e);
    assert_eq!(code, "spawn_failed", "SpawnFailed must map to 'spawn_failed'");
}

#[test]
fn test_BC_2_08_001_session_error_to_code_binary_not_found_maps_correctly() {
    let e = SessionError::EngineError(EngineError::BinaryNotFound("agent".to_string()));
    let code = session_error_to_code(IpcOp::Spawn, &e);
    assert_eq!(code, "binary_not_found", "BinaryNotFound must map to 'binary_not_found'");
}

#[test]
fn test_BC_2_08_001_session_error_to_code_invalid_path_maps_correctly() {
    let e = SessionError::EngineError(EngineError::InvalidPath("non-utf8-path".to_string()));
    let code = session_error_to_code(IpcOp::Spawn, &e);
    assert_eq!(code, "invalid_spawn_arg", "InvalidPath must map to 'invalid_spawn_arg'");
}

#[test]
fn test_BC_2_08_001_session_error_to_code_sidecar_write_failed_maps_correctly() {
    let e = SessionError::SidecarWriteFailed {
        path: "/tmp/session-abc.json".to_string(),
        reason: "Permission denied".to_string(),
    };
    let code = session_error_to_code(IpcOp::Spawn, &e);
    assert_eq!(code, "sidecar_write_failed", "SidecarWriteFailed must map to 'sidecar_write_failed'");
}

#[test]
fn test_BC_2_08_001_session_error_to_code_session_id_collision_maps_correctly() {
    let e = SessionError::SessionIdCollision { session_id: "dup-id".to_string() };
    let code = session_error_to_code(IpcOp::Spawn, &e);
    assert_eq!(code, "session_id_collision", "SessionIdCollision must map to 'session_id_collision'");
}

#[test]
fn test_BC_2_08_001_session_error_to_code_session_not_found_maps_correctly() {
    let e = SessionError::SessionNotFound { session_id: "ghost-id".to_string() };
    let code = session_error_to_code(IpcOp::Kill, &e);
    assert_eq!(code, "session_not_found", "SessionNotFound must map to 'session_not_found'");
}

#[test]
fn test_BC_2_08_001_session_error_to_code_session_host_dead_kill_path() {
    let e = SessionError::SessionHostDead { session_id: "dead-id".to_string() };
    let code = session_error_to_code(IpcOp::Kill, &e);
    assert_eq!(code, "kill_failed", "SessionHostDead on Kill must map to 'kill_failed'");
}

#[test]
fn test_BC_2_08_001_session_error_to_code_session_host_dead_attach_path() {
    let e = SessionError::SessionHostDead { session_id: "dead-id".to_string() };
    let code = session_error_to_code(IpcOp::Attach, &e);
    assert_eq!(code, "attach_failed", "SessionHostDead on Attach must map to 'attach_failed'");
}

#[test]
fn test_BC_2_08_001_session_error_to_code_invalid_session_name_maps_correctly() {
    let e = SessionError::InvalidSessionName { reason: "empty name".to_string() };
    let code = session_error_to_code(IpcOp::Rename, &e);
    assert_eq!(code, "rename_failed", "InvalidSessionName must map to 'rename_failed'");
}

#[test]
fn test_BC_2_08_001_session_error_to_code_session_not_ready_maps_correctly() {
    let e = SessionError::SessionNotReady { session_id: "launching-id".to_string() };
    let code = session_error_to_code(IpcOp::Detach, &e);
    assert_eq!(code, "session_not_ready", "SessionNotReady must map to 'session_not_ready'");
}

#[test]
fn test_BC_2_08_001_session_error_to_code_io_error_maps_to_invalid_request() {
    let io_err = std::io::Error::new(std::io::ErrorKind::Other, "unexpected I/O");
    let e = SessionError::Io(IoError { kind: IoErrorKind::Other, message: io_err.to_string() });
    let code = session_error_to_code(IpcOp::Spawn, &e);
    assert_eq!(code, "invalid_request", "Io error must map to 'invalid_request'");
}

#[test]
fn test_BC_2_08_001_binary_not_found_ipc_code_is_binary_not_found() {
    let e = SessionError::EngineError(EngineError::BinaryNotFound("agent".to_string()));
    assert_eq!(
        session_error_to_code(IpcOp::Spawn, &e),
        "binary_not_found",
        "BinaryNotFound must emit wire code 'binary_not_found'"
    );
}

#[test]
fn test_BC_2_08_001_spawn_failed_ipc_code_is_spawn_failed() {
    let e = SessionError::SpawnFailed { reason: "OS ENOMEM".to_string() };
    assert_eq!(
        session_error_to_code(IpcOp::Spawn, &e),
        "spawn_failed",
        "SpawnFailed must emit wire code 'spawn_failed'"
    );
}

#[test]
fn host_dead_maps_to_attach_failed_on_every_non_kill_op() {
    let e = SessionError::SessionHostDead { session_id: "dead-id".to_string() };
    for op in [IpcOp::Spawn, IpcOp::Attach, IpcOp::Detach, IpcOp::Rename, IpcOp::KeyInput, IpcOp::Resize] {
        assert_eq!(session_error_to_code(op, &e), "attach_failed");
    }
}

#[test]
fn other_engine_errors_map_to_invalid_request() {
    let e = SessionError::EngineError(EngineError::Other("boom".to_string()));
    assert_eq!(session_error_to_code(IpcOp::Spawn, &e), "invalid_request");
}
