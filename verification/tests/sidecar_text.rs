use monocle_sessions::protocol::{count_chunk, detach_send_result, read_decision, scrollback_read_decision, FrameRead, ReadDecision, SendOutcome};
use monocle_sessions::sidecar::{make_detached_patch, make_rename_patch, make_terminated_patch, make_terminating_patch};
use monocle_sessions::sidecar_json::{patched_sidecar_text, sidecar_carried_child_pid, sidecar_child_pid};
use monocle_sessions::{IoError, IoErrorKind, SessionError};

const SIDECAR: &str = r#"{
  "schema_version": 3,
  "session_id": "abc",
  "child_pid": 4321,
  "state": "Running",
  "display_name": "agent-cli — proj",
  "kill_deadline_unix_ms": null,
  "extra_field": {"kept": [1, 2]}
}"#;

fn parse(text: &str) -> serde_json::Value {
    serde_json::from_str(text).expect("patched text is JSON")
}

#[test]
fn child_pid_is_read_from_sidecar_text() {
    assert_eq!(sidecar_child_pid(SIDECAR), Some(4321));
    assert_eq!(sidecar_carried_child_pid(SIDECAR), Some(4321));
    assert_eq!(sidecar_child_pid(r#"{"child_pid": 0}"#), None);
    assert_eq!(sidecar_child_pid(r#"{"child_pid": 4294967296}"#), None);
    assert_eq!(sidecar_carried_child_pid(r#"{"child_pid": 4294967297}"#), Some(1));
    assert_eq!(sidecar_child_pid(r#"{"child_pid": null}"#), None);
    assert_eq!(sidecar_child_pid("not json"), None);
    assert_eq!(sidecar_child_pid("[1, 2]"), None);
}

#[test]
fn terminating_patch_writes_state_and_deadline_and_keeps_the_rest() {
    let out = patched_sidecar_text(SIDECAR, &make_terminating_patch(1700000000123)).unwrap();
    let v = parse(&out);
    assert_eq!(v["state"], "Terminating");
    assert_eq!(v["kill_deadline_unix_ms"], 1700000000123u64);
    assert_eq!(v["display_name"], "agent-cli — proj");
    assert_eq!(v["extra_field"]["kept"][1], 2);
    assert_eq!(v["child_pid"], 4321);
    assert_eq!(v.as_object().unwrap().len(), 7);
}

#[test]
fn terminated_patch_clears_deadline() {
    let once = patched_sidecar_text(SIDECAR, &make_terminating_patch(5)).unwrap();
    let out = patched_sidecar_text(&once, &make_terminated_patch()).unwrap();
    let v = parse(&out);
    assert_eq!(v["state"], "Terminated");
    assert!(v["kill_deadline_unix_ms"].is_null());
}

#[test]
fn detach_and_rename_patches() {
    let v = parse(&patched_sidecar_text(SIDECAR, &make_detached_patch()).unwrap());
    assert_eq!(v["state"], "Detached");
    assert!(v["kill_deadline_unix_ms"].is_null());
    let v = parse(&patched_sidecar_text(SIDECAR, &make_rename_patch("Quote \" and \\ ok".to_string())).unwrap());
    assert_eq!(v["display_name"], "Quote \" and \\ ok");
    assert_eq!(v["state"], "Running");
}

#[test]
fn missing_members_are_added() {
    let v = parse(&patched_sidecar_text("{}", &make_terminating_patch(9)).unwrap());
    assert_eq!(v["state"], "Terminating");
    assert_eq!(v["kill_deadline_unix_ms"], 9);
}

#[test]
fn non_object_sidecar_is_refused() {
    assert!(patched_sidecar_text("not json", &make_detached_patch()).is_none());
    assert!(patched_sidecar_text("[1]", &make_detached_patch()).is_none());
}

#[test]
fn detach_send_outcomes() {
    assert!(detach_send_result(&SendOutcome::Written).is_ok());
    assert!(detach_send_result(&SendOutcome::Failed(IoError { kind: IoErrorKind::BrokenPipe, message: "Broken pipe".to_string() })).is_ok());
    assert!(matches!(detach_send_result(&SendOutcome::Oversized(262145)),
        Err(SessionError::Io(e)) if e.kind == IoErrorKind::InvalidData
            && e.message == "outbound Detach message exceeds MAX_FRAME_LEN: 262145 bytes"));
}

#[test]
fn null_sidecar_becomes_an_object_with_the_patched_fields() {
    let v = parse(&patched_sidecar_text("null", &make_detached_patch()).unwrap());
    assert_eq!(v["state"], "Detached");
    assert_eq!(v.as_object().unwrap().len(), 1);
    let v = parse(&patched_sidecar_text(" null ", &make_terminating_patch(7)).unwrap());
    assert_eq!(v["kill_deadline_unix_ms"], 7);
}

#[test]
fn read_decisions() {
    assert_eq!(read_decision(FrameRead::Message), ReadDecision::Handle);
    assert_eq!(read_decision(FrameRead::Undecodable), ReadDecision::Skip);
    for r in [FrameRead::Closed, FrameRead::BadLength, FrameRead::Failed] {
        assert_eq!(read_decision(r), ReadDecision::Stop);
    }
    assert_eq!(scrollback_read_decision(FrameRead::Message), ReadDecision::Handle);
    assert_eq!(scrollback_read_decision(FrameRead::Undecodable), ReadDecision::Stop);
    assert_eq!(count_chunk(0), 1);
    assert_eq!(count_chunk(usize::MAX), usize::MAX);
}
