use monocle_sessions::table::{
    AttachPlan, DetachPlan, KillPlan, Registration, ServerToClient, SessionTable, SpawnOptions,
};
use monocle_sessions::sidecar::DeadlinePatch;
use monocle_sessions::{session_error_to_code, IpcOp, SessionError, SessionState, SessionStatus};

const ID_A: &str = "00000000-0001-4000-a000-000000000001";
const ID_B: &str = "00000000-0001-4000-a000-000000000002";

fn opts(id: &str) -> SpawnOptions {
    SpawnOptions {
        session_id: id.to_string(),
        project_root: "/tmp/test-project".to_string(),
        worktree_root: "/tmp/test-project".to_string(),
        harness_id: "agent-cli".to_string(),
        profile_id: "default".to_string(),
        hooks_settings_path: "/tmp/hooks.json".to_string(),
    }
}

fn spawn(table: &mut SessionTable, id: &str, pid: u32) -> Vec<ServerToClient> {
    let plan = table.prepare_spawn(&opts(id)).expect("prepare must succeed");
    let socket = format!("/tmp/run/session-{id}.sock");
    table.commit_spawn(&plan, pid, &socket).expect("commit must succeed").events
}

fn fixture(table: &mut SessionTable, id: &str, state: SessionState, has_conn: bool) {
    table.register(Registration {
        session_id: id.to_string(),
        session_host_pid: 4242,
        session_host_socket: format!("/tmp/run/session-{id}.sock"),
        state,
        cwd: "/tmp/test-cwd".to_string(),
        project_root: "/tmp/test-project".to_string(),
        harness_id: "agent-cli".to_string(),
        profile_id: "default".to_string(),
        started_at: "2026-01-01T00:00:00+00:00".to_string(),
        display_name: "agent-cli \u{2014} test-project".to_string(),
        kill_deadline_unix_ms: None,
        has_conn,
    });
}

fn assert_transition(events: &[ServerToClient], id: &str, state: SessionState) {
    assert_eq!(events.len(), 2, "a transition emits exactly two broadcasts");
    match &events[0] {
        ServerToClient::SessionStateChanged { session_id, new_state } => {
            assert_eq!(session_id, id);
            assert_eq!(*new_state, state);
        }
        other => panic!("first broadcast must be the state change, got {other:?}"),
    }
    assert!(matches!(events[1], ServerToClient::SessionListUpdate { .. }));
}

#[test]
fn spawn_registers_launching_entry_and_announces_state_before_list() {
    let mut table = SessionTable::new();
    let events = spawn(&mut table, ID_A, 99_001);
    assert_transition(&events, ID_A, SessionState::Launching);
    let entry = table.get(ID_A).expect("entry must exist");
    assert_eq!(entry.state, SessionState::Launching);
    assert_eq!(entry.session_host_pid, 99_001);
    assert_eq!(entry.harness_id, "agent-cli");
    assert_eq!(entry.profile_id, "default");
    assert_eq!(entry.project_root, "/tmp/test-project");
    assert_eq!(entry.display_name, "agent-cli \u{2014} test-project");
    assert_eq!(entry.project_name.as_deref(), Some("test-project"));
    assert!(!entry.degraded);
    assert!(!entry.has_conn);
    if let ServerToClient::SessionListUpdate { sessions } = &events[1] {
        assert_eq!(sessions.len(), 1);
        assert_eq!(sessions[0].session_id, ID_A);
        assert_eq!(sessions[0].status, SessionStatus::Active);
    }
}

#[test]
fn spawn_plan_names_sidecar_and_default_display_name() {
    let table = SessionTable::new();
    let plan = table.prepare_spawn(&opts(ID_A)).unwrap();
    assert_eq!(plan.sidecar_file, format!("session-{ID_A}.json"));
    assert_eq!(plan.display_name, "agent-cli \u{2014} test-project");
    assert_eq!(plan.cwd, "/tmp/test-project");
    let sidecar = plan.launching_sidecar(77, "/tmp/s.sock");
    assert_eq!(sidecar.schema_version, 3);
    assert_eq!(sidecar.state, SessionState::Launching);
    assert_eq!(sidecar.pty_rows, 24);
    assert_eq!(sidecar.pty_cols, 80);
    assert_eq!(sidecar.kill_deadline_unix_ms, None);
    assert_eq!(sidecar.child_pid, None);
    assert_eq!(sidecar.pid, 77);
    assert!(sidecar.socket_path.contains("s.sock"));
}

#[test]
fn display_name_falls_back_to_unknown_without_basename() {
    let table = SessionTable::new();
    let mut o = opts(ID_A);
    o.project_root = "/".to_string();
    let plan = table.prepare_spawn(&o).unwrap();
    assert_eq!(plan.display_name, "agent-cli \u{2014} unknown");
}

#[test]
fn spawn_rejects_path_traversal_ids_without_registering() {
    let table = SessionTable::new();
    for bad in ["../evil", "../../etc/passwd", "/absolute/path", "session/../escape", "null\x00byte", ""] {
        let r = table.prepare_spawn(&opts(bad));
        assert!(matches!(r, Err(SessionError::SpawnFailed { .. })), "{bad:?} must be refused, got {r:?}");
        if let Err(SessionError::SpawnFailed { reason }) = r {
            assert!(reason.starts_with("session_id is not a valid UUID: "));
            assert!(reason.ends_with("; path-traversal injection rejected"));
        }
    }
    assert!(table.session_list().is_empty());
}

#[test]
fn spawn_reports_collision_on_registered_id() {
    let mut table = SessionTable::new();
    spawn(&mut table, ID_A, 1);
    let r = table.prepare_spawn(&opts(ID_A));
    assert!(matches!(&r, Err(SessionError::SessionIdCollision { session_id }) if session_id == ID_A));
    assert_eq!(session_error_to_code(IpcOp::Spawn, &r.unwrap_err()), "session_id_collision");
}

#[test]
fn commit_rechecks_collision_and_leaves_registry_unchanged() {
    let mut table = SessionTable::new();
    let plan = table.prepare_spawn(&opts(ID_A)).unwrap();
    spawn(&mut table, ID_A, 1);
    let r = table.commit_spawn(&plan, 2, "/tmp/other.sock");
    assert!(matches!(r, Err(SessionError::SessionIdCollision { .. })));
    assert_eq!(table.len(), 1);
    assert_eq!(table.get(ID_A).unwrap().session_host_pid, 1);
}

#[test]
fn two_spawns_produce_distinct_entries() {
    let mut table = SessionTable::new();
    spawn(&mut table, ID_A, 1);
    let events = spawn(&mut table, ID_B, 2);
    assert_eq!(table.len(), 2);
    if let ServerToClient::SessionListUpdate { sessions } = &events[1] {
        assert_eq!(sessions.len(), 2);
        assert_ne!(sessions[0].session_id, sessions[1].session_id);
    }
}

#[test]
fn kill_plan_follows_state_and_connection() {
    let mut table = SessionTable::new();
    let ids = [
        ("00000000-0002-4000-a000-000000000001", SessionState::Running, true),
        ("00000000-0002-4000-a000-000000000002", SessionState::Launching, true),
        ("00000000-0002-4000-a000-000000000003", SessionState::Launching, false),
        ("00000000-0002-4000-a000-000000000004", SessionState::Detached, false),
        ("00000000-0002-4000-a000-000000000005", SessionState::Running, false),
        ("00000000-0002-4000-a000-000000000006", SessionState::Terminating, false),
        ("00000000-0002-4000-a000-000000000007", SessionState::Terminated, false),
    ];
    for (id, st, conn) in ids {
        fixture(&mut table, id, st, conn);
    }
    assert!(matches!(table.kill_plan(ids[0].0), Ok(KillPlan::ExistingConn { pid: 4242, .. })));
    assert!(matches!(table.kill_plan(ids[1].0), Ok(KillPlan::ExistingConn { .. })));
    assert!(matches!(table.kill_plan(ids[2].0), Ok(KillPlan::PidFallback { .. })));
    assert!(matches!(table.kill_plan(ids[3].0), Ok(KillPlan::FreshConnect { .. })));
    assert!(matches!(table.kill_plan(ids[4].0), Ok(KillPlan::FreshConnect { .. })));
    assert!(matches!(table.kill_plan(ids[5].0), Ok(KillPlan::Idempotent)));
    assert!(matches!(table.kill_plan(ids[6].0), Ok(KillPlan::Idempotent)));
    assert!(matches!(table.kill_plan("not-a-uuid"), Err(SessionError::SessionNotFound { .. })));
    assert!(matches!(table.kill_plan(ID_B), Err(SessionError::SessionNotFound { .. })));
}

#[test]
fn kill_then_confirmation_then_second_confirmation_is_silent() {
    let mut table = SessionTable::new();
    fixture(&mut table, ID_A, SessionState::Running, true);
    let change = table.begin_terminating(ID_A, 1_700_000_012_000);
    assert_transition(&change.events, ID_A, SessionState::Terminating);
    let patch = change.sidecar.expect("sidecar update due");
    assert_eq!(patch.state, Some(SessionState::Terminating));
    assert_eq!(patch.kill_deadline, DeadlinePatch::Write(1_700_000_012_000));
    assert_eq!(table.get(ID_A).unwrap().kill_deadline_unix_ms, Some(1_700_000_012_000));
    assert!(matches!(table.kill_plan(ID_A), Ok(KillPlan::Idempotent)));

    let confirm = table.terminate_if_present(ID_A);
    assert_transition(&confirm.events, ID_A, SessionState::Terminated);
    assert_eq!(confirm.gc_socket.as_deref(), Some(format!("/tmp/run/session-{ID_A}.sock").as_str()));
    assert_eq!(confirm.sidecar.unwrap().kill_deadline, DeadlinePatch::Clear);
    let entry = table.get(ID_A).unwrap();
    assert_eq!(entry.state, SessionState::Terminated);
    assert_eq!(entry.kill_deadline_unix_ms, None);

    let again = table.terminate_if_present(ID_A);
    assert!(again.events.is_empty());
    assert!(again.sidecar.is_none());
    assert!(again.gc_socket.is_none());
    let again2 = table.terminate(ID_A);
    assert!(again2.events.is_empty());
    assert!(!table.watchdog_must_kill(ID_A));
}

#[test]
fn terminate_of_unknown_session_announces_but_collects_nothing() {
    let mut table = SessionTable::new();
    let c = table.terminate(ID_A);
    assert_transition(&c.events, ID_A, SessionState::Terminated);
    assert!(c.gc_socket.is_none());
    assert!(c.sidecar.is_some());
    let d = table.terminate_if_present(ID_A);
    assert!(d.events.is_empty() && d.sidecar.is_none());
}

#[test]
fn watchdog_fires_only_while_terminating() {
    let mut table = SessionTable::new();
    fixture(&mut table, ID_A, SessionState::Terminating, false);
    assert!(table.watchdog_must_kill(ID_A));
    let c = table.watchdog_finish(ID_A, "/tmp/w.sock".to_string());
    assert_transition(&c.events, ID_A, SessionState::Terminated);
    assert_eq!(c.gc_socket.as_deref(), Some("/tmp/w.sock"));
    assert!(!table.watchdog_must_kill(ID_A));
    let c2 = table.watchdog_finish(ID_A, "/tmp/w.sock".to_string());
    assert!(c2.events.is_empty() && c2.gc_socket.is_none());
    assert!(!table.watchdog_must_kill(ID_B));
}

#[test]
fn collection_removes_only_terminated_sessions() {
    let mut table = SessionTable::new();
    fixture(&mut table, ID_A, SessionState::Terminated, false);
    fixture(&mut table, ID_B, SessionState::Running, true);
    assert!(table.collect_terminated(ID_B).is_none());
    let ev = table.collect_terminated(ID_A).expect("terminated session is collected");
    assert_eq!(ev.len(), 1);
    match &ev[0] {
        ServerToClient::SessionListUpdate { sessions } => {
            assert_eq!(sessions.len(), 1);
            assert_eq!(sessions[0].session_id, ID_B);
        }
        other => panic!("collection announces the list only, got {other:?}"),
    }
    assert!(!table.contains(ID_A));
    assert!(table.collect_terminated(ID_A).is_none());
}

#[test]
fn rename_updates_name_and_announces_list_only() {
    let mut table = SessionTable::new();
    spawn(&mut table, ID_A, 1);
    let r = table.rename(ID_A, "My Renamed Session".to_string()).expect("rename must succeed");
    assert_eq!(r.prior_name, "agent-cli \u{2014} test-project");
    assert_eq!(r.change.events.len(), 1);
    assert!(r.change.events.iter().all(|e| !matches!(e, ServerToClient::SessionStateChanged { .. })));
    match &r.change.events[0] {
        ServerToClient::SessionListUpdate { sessions } => assert_eq!(sessions[0].display_name, "My Renamed Session"),
        other => panic!("unexpected {other:?}"),
    }
    assert_eq!(r.change.sidecar.as_ref().unwrap().display_name.as_deref(), Some("My Renamed Session"));
    let list = table.session_list();
    assert_eq!(list[0].display_name, "My Renamed Session");
}

#[test]
fn rename_restore_puts_prior_name_back() {
    let mut table = SessionTable::new();
    spawn(&mut table, ID_A, 1);
    let r = table.rename(ID_A, "Temporary".to_string()).unwrap();
    table.restore_name(ID_A, r.prior_name);
    assert_eq!(table.get(ID_A).unwrap().display_name, "agent-cli \u{2014} test-project");
}

#[test]
fn rename_on_terminated_fails_with_rename_failed() {
    let mut table = SessionTable::new();
    fixture(&mut table, ID_A, SessionState::Terminated, false);
    let r = table.rename(ID_A, "Should Not Work".to_string());
    match &r {
        Err(SessionError::InvalidSessionName { reason }) => assert_eq!(reason, "session terminated"),
        other => panic!("expected InvalidSessionName, got {other:?}"),
    }
    assert_eq!(session_error_to_code(IpcOp::Rename, r.as_ref().unwrap_err()), "rename_failed");
    assert_eq!(table.get(ID_A).unwrap().display_name, "agent-cli \u{2014} test-project");
}

#[test]
fn rename_rejections_leave_registry_unchanged() {
    let mut table = SessionTable::new();
    spawn(&mut table, ID_A, 1);
    let too_long = "a".repeat(257);
    let cases: Vec<(String, &str)> = vec![
        (String::new(), "name must not be empty"),
        (too_long, "name exceeds 256-byte limit"),
        ("session\x00name".to_string(), "name contains forbidden character (control char, '/', or '\\')"),
        ("session\nname".to_string(), "name contains forbidden character (control char, '/', or '\\')"),
        ("session\rname".to_string(), "name contains forbidden character (control char, '/', or '\\')"),
        ("session\x1bname".to_string(), "name contains forbidden character (control char, '/', or '\\')"),
        ("session/name".to_string(), "name contains forbidden character (control char, '/', or '\\')"),
        ("session\\name".to_string(), "name contains forbidden character (control char, '/', or '\\')"),
        ("session\tname".to_string(), "name contains forbidden character (control char, '/', or '\\')"),
    ];
    for (name, expected) in cases {
        match table.rename(ID_A, name.clone()) {
            Err(SessionError::InvalidSessionName { reason }) => assert_eq!(reason, expected, "for {name:?}"),
            other => panic!("{name:?} must be refused, got {other:?}"),
        }
        assert_eq!(table.get(ID_A).unwrap().display_name, "agent-cli \u{2014} test-project");
    }
    let exact = "b".repeat(256);
    assert!(table.rename(ID_A, exact).is_ok());
    let multibyte = "\u{00e9}".repeat(129);
    match table.rename(ID_A, multibyte) {
        Err(SessionError::InvalidSessionName { reason }) => assert_eq!(reason, "name exceeds 256-byte limit"),
        other => panic!("258 bytes must be refused, got {other:?}"),
    }
}

#[test]
fn rename_with_malformed_id_is_not_found() {
    let mut table = SessionTable::new();
    for bad in ["../evil", "not-a-uuid", "12345"] {
        assert!(matches!(table.rename(bad, "ValidName".to_string()), Err(SessionError::SessionNotFound { .. })));
    }
    assert!(matches!(table.rename(ID_B, "ValidName".to_string()), Err(SessionError::SessionNotFound { .. })));
    assert!(table.session_list().is_empty());
}

#[test]
fn detach_plan_by_state() {
    let mut table = SessionTable::new();
    let a = "00000000-0003-4000-a000-000000000001";
    let b = "00000000-0003-4000-a000-000000000002";
    let c = "00000000-0003-4000-a000-000000000003";
    let d = "00000000-0003-4000-a000-000000000004";
    fixture(&mut table, a, SessionState::Running, true);
    fixture(&mut table, b, SessionState::Launching, false);
    fixture(&mut table, c, SessionState::Detached, false);
    fixture(&mut table, d, SessionState::Terminated, false);
    assert_eq!(table.detach_plan(a).unwrap(), DetachPlan::SendDetach);
    let e = table.detach_plan(b).unwrap_err();
    assert!(matches!(e, SessionError::SessionNotReady { .. }));
    assert_eq!(session_error_to_code(IpcOp::Detach, &e), "session_not_ready");
    assert_eq!(table.detach_plan(c).unwrap(), DetachPlan::AlreadyDone);
    assert_eq!(table.detach_plan(d).unwrap(), DetachPlan::AlreadyDone);
    assert!(matches!(table.detach_plan(ID_B), Err(SessionError::SessionNotFound { .. })));
}

#[test]
fn detach_then_attach_round_trip() {
    let mut table = SessionTable::new();
    fixture(&mut table, ID_A, SessionState::Running, true);
    let c = table.commit_detach(ID_A);
    assert_transition(&c.events, ID_A, SessionState::Detached);
    assert_eq!(c.sidecar.unwrap().state, Some(SessionState::Detached));
    let e = table.get(ID_A).unwrap();
    assert_eq!(e.state, SessionState::Detached);
    assert!(!e.has_conn && !e.has_proxy);
    assert!(matches!(table.attach_plan(ID_A), Ok(AttachPlan::Reattach { pid: 4242, .. })));
    let a = table.commit_attach(ID_A);
    assert_transition(&a.events, ID_A, SessionState::Running);
    assert!(table.has_proxy_task(ID_A));
    assert!(matches!(table.attach_plan(ID_A), Ok(AttachPlan::AlreadyAttached)));
    let dead = table.attach_plan(ID_B);
    assert!(matches!(dead, Err(SessionError::SessionNotFound { .. })));
}

#[test]
fn attach_on_launching_is_host_dead() {
    let mut table = SessionTable::new();
    fixture(&mut table, ID_A, SessionState::Launching, false);
    let e = table.attach_plan(ID_A).unwrap_err();
    assert!(matches!(e, SessionError::SessionHostDead { .. }));
    assert_eq!(session_error_to_code(IpcOp::Attach, &e), "attach_failed");
}

#[test]
fn detach_losing_race_to_termination_does_not_resurrect() {
    let mut table = SessionTable::new();
    fixture(&mut table, ID_A, SessionState::Running, true);
    table.commit_attach(ID_A);
    table.terminate_if_present(ID_A);
    let c = table.commit_detach(ID_A);
    assert!(c.events.is_empty(), "no Detached broadcast after the session terminated");
    assert!(c.abort_proxy, "the proxy handle is still taken for abortion");
    assert!(c.sidecar.is_some(), "the sidecar still follows the detach that was sent");
    let e = table.get(ID_A).unwrap();
    assert_eq!(e.state, SessionState::Terminated);
    assert!(!e.has_proxy);
}

#[test]
fn post_spawn_monitor_connect_degrade_run_and_park_reader() {
    let mut table = SessionTable::new();
    spawn(&mut table, ID_A, 5);
    table.connect_control(ID_A);
    assert!(table.get(ID_A).unwrap().has_conn);
    table.mark_degraded(ID_A, "Missing env: HOME".to_string());
    let e = table.get(ID_A).unwrap();
    assert!(e.degraded);
    assert_eq!(e.degraded_reason.as_deref(), Some("Missing env: HOME"));
    assert_eq!(e.state, SessionState::Launching);
    let t = table.mark_running(ID_A, "/tmp/a.sock").expect("registered session runs");
    assert_transition(&t.change.events, ID_A, SessionState::Running);
    assert_eq!(t.sidecar.state, SessionState::Running);
    assert_eq!(t.sidecar.display_name, "agent-cli \u{2014} test-project");
    assert_eq!(t.sidecar.pid, 5);
    table.park_reader(ID_A);
    assert!(matches!(table.kill_plan(ID_A), Ok(KillPlan::ExistingConn { .. })));
    assert!(table.take_reader(ID_A));
    assert!(!table.take_reader(ID_A));
    assert!(table.mark_running(ID_B, "/tmp/b.sock").is_none());
}

#[test]
fn rename_while_launching_survives_running_sidecar() {
    let mut table = SessionTable::new();
    spawn(&mut table, ID_A, 5);
    table.rename(ID_A, "User Assigned Name".to_string()).unwrap();
    let t = table.mark_running(ID_A, "/tmp/a.sock").unwrap();
    assert_eq!(t.sidecar.display_name, "User Assigned Name");
}

#[test]
fn rejected_peer_terminates_and_announces() {
    let mut table = SessionTable::new();
    spawn(&mut table, ID_A, 5);
    let c = table.reject_peer(ID_A, "/tmp/run/a.sock");
    assert_transition(&c.events, ID_A, SessionState::Terminated);
    assert_eq!(table.state_of(ID_A), Some(SessionState::Terminated));
    assert!(c.remove_sidecar);
    assert_eq!(c.gc_socket.as_deref(), Some("/tmp/run/a.sock"));
    assert!(c.sidecar.is_none());
}

#[test]
fn failed_rename_write_restores_name_without_broadcast() {
    let mut table = SessionTable::new();
    spawn(&mut table, ID_A, 5);
    let before = table.get(ID_A).unwrap().display_name.clone();
    let rn = table.rename(ID_A, "New Name".to_string()).unwrap();
    assert_eq!(table.get(ID_A).unwrap().display_name, "New Name");
    match table.settle_rename(ID_A, rn, Err("disk full".to_string()), "/run/session-a.json") {
        Err(SessionError::SidecarWriteFailed { path, reason }) => {
            assert_eq!(path, "/run/session-a.json");
            assert_eq!(reason, "disk full");
        }
        other => panic!("unexpected {other:?}"),
    }
    assert_eq!(table.get(ID_A).unwrap().display_name, before);
}

#[test]
fn written_rename_releases_list_broadcast() {
    let mut table = SessionTable::new();
    spawn(&mut table, ID_A, 5);
    let rn = table.rename(ID_A, "New Name".to_string()).unwrap();
    let events = table.settle_rename(ID_A, rn, Ok(()), "/run/session-a.json").unwrap();
    assert_eq!(events.len(), 1);
    assert!(matches!(&events[0], ServerToClient::SessionListUpdate { sessions } if sessions[0].display_name == "New Name"));
    assert_eq!(table.get(ID_A).unwrap().display_name, "New Name");
}

#[test]
fn session_list_reports_state_and_names() {
    let mut table = SessionTable::new();
    fixture(&mut table, ID_A, SessionState::Detached, false);
    let list = table.session_list();
    assert_eq!(list.len(), 1);
    assert_eq!(list[0].state, SessionState::Detached);
    assert_eq!(list[0].cwd, "/tmp/test-cwd");
    assert_eq!(list[0].profile_id, "default");
    let rows = table.listing();
    assert_eq!(rows[0].status, SessionStatus::Idle);
}

#[test]
fn register_replaces_existing_entry() {
    let mut table = SessionTable::new();
    fixture(&mut table, ID_A, SessionState::Running, true);
    fixture(&mut table, ID_A, SessionState::Terminated, false);
    assert_eq!(table.len(), 1);
    assert_eq!(table.state_of(ID_A), Some(SessionState::Terminated));
}

#[test]
fn spawn_plan_start_time_is_utc_rfc3339() {
    let table = SessionTable::new();
    let plan = table.prepare_spawn(&opts(ID_A)).unwrap();
    assert!(plan.started_at.len() >= 25);
    assert!(plan.started_at.ends_with("+00:00"));
    assert_eq!(&plan.started_at[4..5], "-");
    assert_eq!(&plan.started_at[10..11], "T");
}
