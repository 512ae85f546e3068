use monocle_sessions::frame::{encode_frame, inbound_frame_len, MAX_FRAME_LEN};
use monocle_sessions::host::{
    FakePeerCredVerifier, MockSessionHostSpawner, RealPeerCredVerifier, RealSessionHostSpawner,
    RediscoveryReport, SequencedIdGenerator, SessionIdGenerator, SpawnedHostHandle, UuidV4Generator,
};
use monocle_sessions::names::{
    decimal_string, default_display_name, is_valid_session_id, project_basename, quoted,
    same_text, sidecar_file_name, sidecar_path, socket_file_name, socket_path, utf8_byte_len,
    validate_display_name,
};
use monocle_sessions::protocol::{
    attach_failure, degraded_reason, kill_confirm_step, post_spawn_step, proxy_step,
    scrollback_step, scrollback_truncated, AttachOutcome, AttachRecovery, HostMessage,
    MonitorStep, ReaderStep, ScrollbackStep,
};
use monocle_sessions::signals::{
    carried_child_pid, kill_deadline_unix_ms, orphan_after_probe, orphan_after_sigterm,
    pid_fallback_result, validated_child_pid, OrphanStep, SignalOutcome,
};
use monocle_sessions::model::session_status;
use monocle_sessions::{IoError, IoErrorKind, SessionError, SessionState, SessionStatus};

#[test]
fn uuid_forms_accepted_and_rejected() {
    assert!(is_valid_session_id("550e8400-e29b-41d4-a716-446655440000"));
    assert!(is_valid_session_id("550E8400-E29B-41D4-A716-446655440000"));
    assert!(is_valid_session_id("550e8400e29b41d4a716446655440000"));
    assert!(is_valid_session_id("{550e8400-e29b-41d4-a716-446655440000}"));
    assert!(is_valid_session_id("urn:uuid:550e8400-e29b-41d4-a716-446655440000"));
    assert!(is_valid_session_id("URN:UUID:550e8400-e29b-41d4-a716-446655440000"));
    for bad in ["", "../evil", "550e8400-e29b-41d4-a716-44665544000g", "550e8400-e29b-41d4-a716_446655440000", "12345", "urn:uuld:550e8400-e29b-41d4-a716-446655440000"] {
        assert!(!is_valid_session_id(bad), "{bad:?}");
    }
}

#[test]
fn generated_ids_are_valid_and_distinct() {
    let mut g = UuidV4Generator;
    let a = g.next_id();
    let b = g.next_id();
    assert_eq!(a.len(), 36);
    assert!(is_valid_session_id(&a));
    assert_ne!(a, b);
    assert_eq!(a, a.to_lowercase());
    assert_eq!(&a[14..15], "4");
    assert!(matches!(&a[19..20], "8" | "9" | "a" | "b"));
}

#[test]
fn sequenced_generator_cycles_through_script() {
    let mut g = SequencedIdGenerator::new(vec!["collision-id".to_string(), "fresh-id".to_string()]);
    assert_eq!(g.next_id(), "collision-id");
    assert_eq!(g.next_id(), "fresh-id");
    assert_eq!(g.next_id(), "collision-id");
    let mut one = SequencedIdGenerator::new(vec!["only".to_string()]);
    assert_eq!(one.next_id(), "only");
    assert_eq!(one.next_id(), "only");
}

#[test]
fn frames_round_trip_and_bounds() {
    let body = b"{\"type\":\"kill\"}".to_vec();
    let f = encode_frame(&body).expect("small body frames");
    assert_eq!(&f[..4], &(body.len() as u32).to_le_bytes());
    assert_eq!(&f[4..], &body[..]);
    let header = [f[0], f[1], f[2], f[3]];
    assert_eq!(inbound_frame_len(header), Some(body.len()));
    assert_eq!(inbound_frame_len([0, 0, 0, 0]), None);
    assert_eq!(inbound_frame_len((MAX_FRAME_LEN as u32).to_le_bytes()), Some(MAX_FRAME_LEN));
    assert_eq!(inbound_frame_len((MAX_FRAME_LEN as u32 + 1).to_le_bytes()), None);
    assert_eq!(inbound_frame_len([0xff, 0xff, 0xff, 0xff]), None);
    let big = vec![0u8; MAX_FRAME_LEN + 1];
    assert!(encode_frame(&big).is_none());
    let exact = vec![7u8; MAX_FRAME_LEN];
    let fe = encode_frame(&exact).unwrap();
    assert_eq!(fe.len(), MAX_FRAME_LEN + 4);
    assert_eq!(&fe[..4], &(MAX_FRAME_LEN as u32).to_le_bytes());
    let empty = encode_frame(&Vec::new()).unwrap();
    assert_eq!(empty, vec![0, 0, 0, 0]);
}

#[test]
fn display_name_validation_and_byte_length() {
    assert!(validate_display_name("My Session").is_ok());
    assert_eq!(utf8_byte_len("abc"), 3);
    assert_eq!(utf8_byte_len("\u{00e9}"), 2);
    assert_eq!(utf8_byte_len("\u{2014}"), 3);
    assert_eq!(utf8_byte_len("\u{1f600}"), 4);
    assert!(matches!(validate_display_name("a\u{0085}b"), Err(SessionError::InvalidSessionName { .. })));
    assert!(matches!(validate_display_name("a\u{007f}b"), Err(SessionError::InvalidSessionName { .. })));
    assert!(validate_display_name("a\u{00a0}b").is_ok());
}

#[test]
fn decimal_rendering() {
    assert_eq!(decimal_string(0), "0");
    assert_eq!(decimal_string(7), "7");
    assert_eq!(decimal_string(257), "257");
    assert_eq!(decimal_string(1_000_000), "1000000");
}

#[test]
fn file_names_and_paths() {
    let id = "00000000-0001-4000-a000-000000000003";
    assert_eq!(sidecar_file_name(id), format!("session-{id}.json"));
    assert_eq!(socket_file_name(id), format!("session-{id}.sock"));
    assert_eq!(sidecar_path("/run/monocle", id), format!("/run/monocle/session-{id}.json"));
    assert_eq!(socket_path("/run/monocle", id), format!("/run/monocle/session-{id}.sock"));
    assert_eq!(project_basename("/tmp/test-project").as_deref(), Some("test-project"));
    assert_eq!(project_basename("/tmp/proj/").as_deref(), Some("proj"));
    assert_eq!(project_basename("/tmp/.."), None);
    assert_eq!(default_display_name("agent-cli", "/tmp/proj"), "agent-cli \u{2014} proj");
    assert_eq!(quoted("a\"b"), "\"a\\\"b\"");
    assert!(same_text("abc", "abc"));
    assert!(!same_text("abc", "abd"));
    assert!(!same_text("abc", "ab"));
}

#[test]
fn status_mapping() {
    assert_eq!(session_status(SessionState::Launching), SessionStatus::Active);
    assert_eq!(session_status(SessionState::Running), SessionStatus::Active);
    assert_eq!(session_status(SessionState::Detached), SessionStatus::Idle);
    assert_eq!(session_status(SessionState::Terminating), SessionStatus::Stopped);
    assert_eq!(session_status(SessionState::Terminated), SessionStatus::Stopped);
}

#[test]
fn signal_decisions() {
    assert!(pid_fallback_result("x", SignalOutcome::Delivered).is_ok());
    assert!(pid_fallback_result("x", SignalOutcome::NoSuchProcess).is_ok());
    assert!(matches!(pid_fallback_result("x", SignalOutcome::Failed), Err(SessionError::SessionHostDead { session_id }) if session_id == "x"));
    assert_eq!(orphan_after_sigterm(SignalOutcome::NoSuchProcess), OrphanStep::Done);
    assert_eq!(orphan_after_sigterm(SignalOutcome::Failed), OrphanStep::Probe);
    assert_eq!(orphan_after_sigterm(SignalOutcome::Delivered), OrphanStep::Probe);
    assert_eq!(orphan_after_probe(SignalOutcome::Delivered, false), OrphanStep::Wait);
    assert_eq!(orphan_after_probe(SignalOutcome::Delivered, true), OrphanStep::SendSigkill);
    assert_eq!(orphan_after_probe(SignalOutcome::NoSuchProcess, true), OrphanStep::Done);
    assert_eq!(orphan_after_probe(SignalOutcome::Failed, false), OrphanStep::Done);
}

#[test]
fn kill_deadline_arithmetic() {
    assert_eq!(kill_deadline_unix_ms(Some(1_000), 12_000), 13_000);
    assert_eq!(kill_deadline_unix_ms(None, 12_000), 0);
    assert_eq!(kill_deadline_unix_ms(Some(u128::MAX), 5), u64::MAX);
    assert_eq!(kill_deadline_unix_ms(Some(u64::MAX as u128 - 1), 10), u64::MAX);
}

#[test]
fn child_pid_checks() {
    assert_eq!(validated_child_pid(Some(12)), Some(12));
    assert_eq!(validated_child_pid(Some(0)), None);
    assert_eq!(validated_child_pid(Some(i32::MAX as u64)), Some(i32::MAX as u32));
    assert_eq!(validated_child_pid(Some(i32::MAX as u64 + 1)), None);
    assert_eq!(validated_child_pid(Some(u64::MAX)), None);
    assert_eq!(validated_child_pid(None), None);
    assert_eq!(carried_child_pid(Some(12346)), Some(12346));
    assert_eq!(carried_child_pid(Some((1u64 << 32) + 5)), Some(5));
    assert_eq!(carried_child_pid(None), None);
}

#[test]
fn monitor_and_reader_decisions() {
    let degraded = HostMessage::StateChanged {
        new_state: SessionState::Launching,
        degraded_env: Some(vec!["HOME".to_string(), "PATH".to_string()]),
    };
    match post_spawn_step(&degraded) {
        MonitorStep::MarkDegraded(r) => assert_eq!(r, "Missing env: HOME, PATH"),
        other => panic!("unexpected {other:?}"),
    }
    let healthy = HostMessage::StateChanged { new_state: SessionState::Launching, degraded_env: Some(vec![]) };
    assert!(matches!(post_spawn_step(&healthy), MonitorStep::Continue));
    let running = HostMessage::StateChanged { new_state: SessionState::Running, degraded_env: None };
    assert!(matches!(post_spawn_step(&running), MonitorStep::BecomeRunning));
    assert!(matches!(post_spawn_step(&HostMessage::Goodbye), MonitorStep::Stop));
    assert!(matches!(post_spawn_step(&HostMessage::PtyBytes), MonitorStep::Continue));
    let terminated = HostMessage::StateChanged { new_state: SessionState::Terminated, degraded_env: None };
    assert_eq!(proxy_step(&terminated), ReaderStep::Terminate);
    assert_eq!(proxy_step(&HostMessage::Goodbye), ReaderStep::Terminate);
    assert_eq!(proxy_step(&HostMessage::PtyReset), ReaderStep::Continue);
    assert_eq!(kill_confirm_step(&terminated), ReaderStep::Terminate);
    assert_eq!(kill_confirm_step(&HostMessage::Goodbye), ReaderStep::Stop);
    assert_eq!(kill_confirm_step(&running), ReaderStep::Continue);
    assert_eq!(scrollback_step(&HostMessage::ScrollbackChunk), ScrollbackStep::Collect);
    let done = HostMessage::ScrollbackDumpComplete { total_chunks: 2, cursor_row: 0, cursor_col: 0, pty_rows: 24, pty_cols: 80 };
    assert_eq!(scrollback_step(&done), ScrollbackStep::Complete);
    assert_eq!(scrollback_step(&HostMessage::Other), ScrollbackStep::Skip);
    assert!(!scrollback_truncated(2, 2));
    assert!(scrollback_truncated(1, 2));
    assert_eq!(degraded_reason(&vec!["HOME".to_string()]), "Missing env: HOME");
}

#[test]
fn attach_failure_recovery() {
    assert!(attach_failure("x", AttachOutcome::Success).is_none());
    let cases = [
        (AttachOutcome::Timeout, AttachRecovery::SigtermHost),
        (AttachOutcome::ConnectFailed, AttachRecovery::TerminateSession),
        (AttachOutcome::PeerCredFailed, AttachRecovery::TerminateSession),
        (AttachOutcome::ProtocolError, AttachRecovery::StayDetached),
    ];
    for (o, rec) in cases {
        let (r, e) = attach_failure("x", o).unwrap();
        assert_eq!(r, rec);
        assert!(matches!(e, SessionError::SessionHostDead { session_id } if session_id == "x"));
    }
}

#[test]
fn spawners_and_verifiers() {
    let mock = MockSessionHostSpawner { spawn_result: None, fake_pid: 99_001 };
    let h: SpawnedHostHandle = mock.spawn("abc", "/run").unwrap();
    assert_eq!(h.pid, 99_001);
    assert_eq!(h.socket_path, "/run/session-abc.sock");
    let failing = MockSessionHostSpawner { spawn_result: Some("OS fork failure: ENOMEM".to_string()), fake_pid: 1 };
    assert!(matches!(failing.spawn("abc", "/run"), Err(SessionError::SpawnFailed { reason }) if reason == "OS fork failure: ENOMEM"));

    let real = RealSessionHostSpawner { session_host_bin: "/opt/bin/monocle-session-host".to_string() };
    let args = real.command_args("id1", "/run", "agent", "[\"-x\"]", "{}", "/proj");
    assert_eq!(
        args,
        vec!["--session-id", "id1", "--runtime-dir", "/run", "--binary", "agent", "--args", "[\"-x\"]", "--env", "{}", "--cwd", "/proj"]
    );
    assert_eq!(RealSessionHostSpawner::encode_args(&vec!["--dangerously-skip-permissions".to_string()]), "[\"--dangerously-skip-permissions\"]");
    assert_eq!(
        RealSessionHostSpawner::encode_args(&vec!["a\u{1}\t\"\\".to_string(), "é\u{7f}".to_string()]),
        "[\"a\\u0001\\t\\\"\\\\\",\"é\u{7f}\"]"
    );
    assert_eq!(RealSessionHostSpawner::encode_args(&vec![]), "[]");
    assert!(matches!(real.spawn_error(true, "No such file or directory"), SessionError::SpawnFailed { reason }
        if reason == "monocle-session-host binary not found at \"/opt/bin/monocle-session-host\": No such file or directory"));
    assert!(matches!(real.spawn_error(false, "EPERM"), SessionError::SpawnFailed { reason } if reason == "EPERM"));
    let quoted_bin = RealSessionHostSpawner { session_host_bin: "/opt/it's/host".to_string() };
    match quoted_bin.spawn_error(true, "ENOENT") {
        SessionError::SpawnFailed { reason } => assert_eq!(reason, format!("monocle-session-host binary not found at {:?}: ENOENT", std::path::Path::new("/opt/it's/host"))),
        other => panic!("unexpected {other:?}"),
    }
    let env = vec![("HOME".to_string(), "/home/u".to_string()), ("A".to_string(), "1".to_string())];
    assert_eq!(RealSessionHostSpawner::encode_env(&env), "{\"A\":\"1\",\"HOME\":\"/home/u\"}");
    let argv = real.host_command("id1", "/run", "agent", &vec!["-x".to_string()], &env, "/proj");
    assert_eq!(argv[7], "[\"-x\"]");
    assert_eq!(argv[9], "{\"A\":\"1\",\"HOME\":\"/home/u\"}");
    match real.launched("id1", "/run", Ok(321)) {
        Ok(h) => {
            assert_eq!(h.pid, 321);
            assert_eq!(h.socket_path, "/run/session-id1.sock");
        }
        Err(e) => panic!("unexpected {e:?}"),
    }
    assert!(matches!(real.launched("id1", "/run", Err((false, "EAGAIN".to_string()))), Err(SessionError::SpawnFailed { reason }) if reason == "EAGAIN"));

    let v = RealPeerCredVerifier;
    assert!(v.check(Ok(1000), 1000).is_ok());
    assert!(matches!(v.check(Ok(0), 1000), Err(SessionError::Io(e))
        if e.kind == IoErrorKind::PermissionDenied && e.message == "SO_PEERCRED UID mismatch: peer_uid=0 daemon_uid=1000"));
    let closed = IoError { kind: IoErrorKind::NotFound, message: "socket closed".to_string() };
    assert!(matches!(v.check(Err(closed), 1000), Err(SessionError::Io(e))
        if e.kind == IoErrorKind::NotFound && e.message == "socket closed"));
    assert!(FakePeerCredVerifier { allow: true }.verify().is_ok());
    assert!(matches!(FakePeerCredVerifier { allow: false }.verify(), Err(SessionError::Io(e))
        if e.kind == IoErrorKind::PermissionDenied && e.message == "FakePeerCredVerifier: simulated UID mismatch"));

    let report = RediscoveryReport { found: 2, alive: 1, cleaned: 1 };
    assert_eq!(report.found, report.alive + report.cleaned);
}
