use monocle_sessions::flows::{
    ConfirmWith, KillAction, KillEvent, KillFlow, KillStage, SpawnAction, SpawnEvent, SpawnFlow,
    SpawnStage,
};
use monocle_sessions::signals::SignalOutcome;
use monocle_sessions::table::KillPlan;
use monocle_sessions::{EngineError, IoError, IoErrorKind, SessionError};

fn io(kind: IoErrorKind, message: &str) -> IoError {
    IoError { kind, message: message.to_string() }
}

const ID: &str = "7f9c2d64-3b1a-4e6f-9a2b-1c3d5e7f9a0b";

fn existing() -> KillPlan {
    KillPlan::ExistingConn { pid: 4242, socket_path: "/run/m/session-x.sock".to_string() }
}

#[test]
fn kill_start_follows_the_plan() {
    let (f, a) = KillFlow::start(ID, &KillPlan::Idempotent);
    assert_eq!(f.stage, KillStage::Finished);
    assert!(matches!(a, KillAction::Done));

    let (f, a) = KillFlow::start(ID, &existing());
    assert_eq!(f.stage, KillStage::WritingExisting);
    assert!(matches!(a, KillAction::WriteOnExisting));
    assert_eq!(f.session_id, ID);

    let plan = KillPlan::PidFallback { pid: 9, socket_path: "/s".to_string() };
    let (f, a) = KillFlow::start(ID, &plan);
    assert_eq!(f.stage, KillStage::Signalling);
    assert!(matches!(a, KillAction::Sigterm));

    let plan = KillPlan::FreshConnect { pid: 9, socket_path: "/s".to_string() };
    let (f, a) = KillFlow::start(ID, &plan);
    assert_eq!(f.stage, KillStage::FreshConnecting);
    assert!(matches!(a, KillAction::ConnectFresh));
}

#[test]
fn kill_over_existing_connection_confirms_with_parked_reader() {
    let (mut f, _) = KillFlow::start(ID, &existing());
    let a = f.step(KillEvent::Written(Ok(())));
    assert!(matches!(a, KillAction::StartTerminating(ConfirmWith::ParkedReader)));
    assert_eq!(f.stage, KillStage::Finished);
}

#[test]
fn broken_connection_falls_back_to_checked_fresh_connection() {
    let (mut f, _) = KillFlow::start(ID, &existing());
    let a = f.step(KillEvent::Written(Err(io(IoErrorKind::BrokenPipe, "Broken pipe"))));
    assert!(matches!(a, KillAction::ConnectFresh));
    assert_eq!(f.stage, KillStage::FallbackConnecting);
    let a = f.step(KillEvent::Connected(true));
    assert!(matches!(a, KillAction::CheckPeer));
    let a = f.step(KillEvent::PeerChecked(true));
    assert!(matches!(a, KillAction::WriteOnFresh));
    let a = f.step(KillEvent::Written(Ok(())));
    assert!(matches!(a, KillAction::StartTerminating(ConfirmWith::FreshReaderDropParked)));
    assert_eq!(f.stage, KillStage::Finished);
}

#[test]
fn unreachable_or_foreign_session_host_is_terminated() {
    let (mut f, _) = KillFlow::start(ID, &existing());
    f.step(KillEvent::Written(Err(io(IoErrorKind::BrokenPipe, "Broken pipe"))));
    assert!(matches!(f.step(KillEvent::Connected(false)), KillAction::TerminateSession));

    let plan = KillPlan::FreshConnect { pid: 9, socket_path: "/s".to_string() };
    let (mut f, _) = KillFlow::start(ID, &plan);
    assert!(matches!(f.step(KillEvent::Connected(true)), KillAction::CheckPeer));
    assert!(matches!(f.step(KillEvent::PeerChecked(false)), KillAction::TerminateSession));
    assert_eq!(f.stage, KillStage::Finished);
}

#[test]
fn fresh_kill_confirms_with_fresh_reader_or_fails_with_write_error() {
    let plan = KillPlan::FreshConnect { pid: 9, socket_path: "/s".to_string() };
    let (mut f, _) = KillFlow::start(ID, &plan);
    f.step(KillEvent::Connected(true));
    f.step(KillEvent::PeerChecked(true));
    let a = f.step(KillEvent::Written(Ok(())));
    assert!(matches!(a, KillAction::StartTerminating(ConfirmWith::FreshReader)));

    let (mut f, _) = KillFlow::start(ID, &plan);
    f.step(KillEvent::Connected(true));
    f.step(KillEvent::PeerChecked(true));
    match f.step(KillEvent::Written(Err(io(IoErrorKind::ConnectionReset, "Connection reset")))) {
        KillAction::Fail(SessionError::Io(e)) => {
            assert_eq!(e.kind, IoErrorKind::ConnectionReset);
            assert_eq!(e.message, "Connection reset");
        }
        other => panic!("unexpected {other:?}"),
    }
}

#[test]
fn oversized_kill_frame_is_an_io_error() {
    let (mut f, _) = KillFlow::start(ID, &existing());
    match f.step(KillEvent::Oversized(300000)) {
        KillAction::Fail(SessionError::Io(e)) => {
            assert_eq!(e.kind, IoErrorKind::InvalidData);
            assert_eq!(e.message, "outbound Kill message exceeds MAX_FRAME_LEN: 300000 bytes")
        }
        other => panic!("unexpected {other:?}"),
    }
}

#[test]
fn pid_fallback_sigterm_outcomes() {
    let plan = KillPlan::PidFallback { pid: 9, socket_path: "/s".to_string() };
    let (mut f, _) = KillFlow::start(ID, &plan);
    match f.step(KillEvent::Signalled(SignalOutcome::Failed)) {
        KillAction::Fail(SessionError::SessionHostDead { session_id }) => assert_eq!(session_id, ID),
        other => panic!("unexpected {other:?}"),
    }
    for o in [SignalOutcome::Delivered, SignalOutcome::NoSuchProcess] {
        let (mut f, _) = KillFlow::start(ID, &plan);
        assert!(matches!(f.step(KillEvent::Signalled(o)), KillAction::StartTerminating(ConfirmWith::WatchdogOnly)));
    }
}

#[test]
fn spawn_happy_path_registers_after_sidecar() {
    let mut f = SpawnFlow::start();
    assert_eq!(f.stage, SpawnStage::Recipe);
    assert!(matches!(f.step(SpawnEvent::RecipeBuilt(Ok(()))), SpawnAction::StartHost));
    assert!(matches!(f.step(SpawnEvent::HostStarted(Ok(42))), SpawnAction::WriteSidecar));
    assert_eq!(f.stage, SpawnStage::WritingSidecar { pid: 42 });
    assert!(matches!(f.step(SpawnEvent::SidecarWritten(Ok(()))), SpawnAction::Register));
    assert_eq!(f.stage, SpawnStage::Registering { pid: 42 });
    assert!(matches!(f.step(SpawnEvent::Registered(Ok(()))), SpawnAction::Complete));
    assert_eq!(f.stage, SpawnStage::Finished);
}

#[test]
fn spawn_engine_failure_starts_nothing() {
    let mut f = SpawnFlow::start();
    match f.step(SpawnEvent::RecipeBuilt(Err(EngineError::BinaryNotFound("agent".to_string())))) {
        SpawnAction::Abort { orphan_pid: None, remove_sidecar: false, error: SessionError::EngineError(EngineError::BinaryNotFound(b)) } => {
            assert_eq!(b, "agent")
        }
        other => panic!("unexpected {other:?}"),
    }
}

#[test]
fn spawn_failures_after_start_kill_the_orphan() {
    let mut f = SpawnFlow::start();
    f.step(SpawnEvent::RecipeBuilt(Ok(())));
    match f.step(SpawnEvent::HostStarted(Err(SessionError::SpawnFailed { reason: "ENOENT".to_string() }))) {
        SpawnAction::Abort { orphan_pid: None, remove_sidecar: false, error: SessionError::SpawnFailed { reason } } => {
            assert_eq!(reason, "ENOENT")
        }
        other => panic!("unexpected {other:?}"),
    }

    let mut f = SpawnFlow::start();
    f.step(SpawnEvent::RecipeBuilt(Ok(())));
    f.step(SpawnEvent::HostStarted(Ok(77)));
    let err = SessionError::SidecarWriteFailed { path: "/run/s.json".to_string(), reason: "EACCES".to_string() };
    match f.step(SpawnEvent::SidecarWritten(Err(err))) {
        SpawnAction::Abort { orphan_pid: Some(77), remove_sidecar: false, error: SessionError::SidecarWriteFailed { .. } } => {}
        other => panic!("unexpected {other:?}"),
    }

    let mut f = SpawnFlow::start();
    f.step(SpawnEvent::RecipeBuilt(Ok(())));
    f.step(SpawnEvent::HostStarted(Ok(77)));
    f.step(SpawnEvent::SidecarWritten(Ok(())));
    let err = SessionError::SessionIdCollision { session_id: ID.to_string() };
    match f.step(SpawnEvent::Registered(Err(err))) {
        SpawnAction::Abort { orphan_pid: Some(77), remove_sidecar: true, error: SessionError::SessionIdCollision { session_id } } => {
            assert_eq!(session_id, ID)
        }
        other => panic!("unexpected {other:?}"),
    }
}
