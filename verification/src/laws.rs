use vstd::prelude::*;

use crate::codes::error_code;
use crate::host::next_count;
use crate::model::{is_terminal, IpcOp, SessionError, SessionState, SessionStatus};
use crate::flows::{kill_action_fits, kill_next_stage, KillAction, KillEvent, KillStage};
use crate::flows::{spawn_action_fits, spawn_next_stage, SpawnAction, SpawnEvent, SpawnStage};
use crate::protocol::{degraded_reason_of, join_with};
use crate::host::host_argv;
use crate::sidecar_json::{json_string_text, patched_members, set_member, state_name};
use crate::signals::{carried_child_pid_of, kill_deadline_ms_of, valid_child_pid_of, SignalOutcome};
use crate::names::{default_display_name_of, display_name_rejection, is_forbidden_name_char, path_file_name, utf8_len};
use crate::table::{
    connected_entry, degraded_entry, launching_sidecar_of, registered_entry, running_sidecar_of, with_state,
    Registration,
};
use crate::sidecar::{detached_patch, rename_patch, terminated_patch, terminating_patch, DeadlinePatch};
use crate::table::{
    attached_entry, detached_entry, enriched_of, entry_wf, has_session, index_of, launching_entry,
    list_events, listing, lookup, registry_wf, renamed_entry, replace_session, snapshot_of,
    terminated_entry, terminating_entry, transition_events, EntryView, EventView, KillPlan,
    kill_plan_fits, SpawnPlan, lemma_push_wf, lemma_replace_at,
};

verus! {

/// After one session is replaced by an entry with the same ID, looking that ID up
/// gives the new entry, looking up any other ID gives what it gave before, and the
/// registry stays consistent.
pub proof fn lemma_replace_lookup(v: Seq<EntryView>, id: Seq<char>, e: EntryView, other: Seq<char>)
    requires
        registry_wf(v),
        has_session(v, id),
        e.session_id == id,
        entry_wf(e),
    ensures
        registry_wf(replace_session(v, id, e)),
        lookup(replace_session(v, id, e), id) == Some(e),
        other != id ==> lookup(replace_session(v, id, e), other) == lookup(v, other),
        replace_session(v, id, e).len() == v.len(),
{
    let i = index_of(v, id);
    assert(v[i].session_id == id);
    lemma_replace_at(v, i, e);
    let w = v.update(i, e);
    assert(w[i].session_id == id);
    let k = index_of(w, id);
    assert(w[k].session_id == id);
    assert(k == i);
    if other != id {
        if has_session(v, other) {
            let j = index_of(v, other);
            assert(v[j].session_id == other);
            assert(j != i);
            assert(w[j] == v[j]);
            let j2 = index_of(w, other);
            assert(w[j2].session_id == other);
            assert(j2 == j);
        } else {
            if has_session(w, other) {
                let j = choose|j: int| 0 <= j < w.len() && #[trigger] w[j].session_id == other;
                assert(j != i);
                assert(w[j] == v[j]);
            }
        }
    }
}

/// Every transition is announced as the state change followed by the list as it
/// stands after the change; a metadata change (rename, collection) announces only
/// the list and never a state change.
pub proof fn lemma_broadcast_order(id: Seq<char>, s: SessionState, after: Seq<EntryView>)
    ensures
        transition_events(id, s, after).len() == 2,
        transition_events(id, s, after)[0] == EventView::StateChanged(id, s),
        transition_events(id, s, after)[1] == EventView::ListUpdate(listing(after)),
        list_events(after).len() == 1,
        forall|i: int| 0 <= i < list_events(after).len() ==> !(#[trigger] list_events(after)[i] is StateChanged),
{
}

/// Terminating a session twice changes nothing the second time: the entry is
/// `Terminated` after the first, which is exactly the case the second call leaves
/// alone without announcing anything.
pub proof fn lemma_terminate_idempotent(v: Seq<EntryView>, id: Seq<char>)
    requires
        registry_wf(v),
        has_session(v, id),
    ensures
        lookup(replace_session(v, id, terminated_entry(lookup(v, id)->0)), id) matches Some(e)
            && e.state == SessionState::Terminated,
{
    let e = lookup(v, id)->0;
    assert(v[index_of(v, id)].session_id == id);
    lemma_replace_lookup(v, id, terminated_entry(e), id);
}

/// Once a kill has started, any further kill of the session is a no-op: the only
/// plan that fits a `Terminating` (or later `Terminated`) entry is `Idempotent`.
pub proof fn lemma_second_kill_is_idempotent(v: Seq<EntryView>, id: Seq<char>, ms: u64, p: KillPlan)
    requires
        registry_wf(v),
        has_session(v, id),
        kill_plan_fits(p, lookup(replace_session(v, id, terminating_entry(lookup(v, id)->0, ms)), id)->0),
    ensures
        p is Idempotent,
{
    let e = lookup(v, id)->0;
    assert(v[index_of(v, id)].session_id == id);
    lemma_replace_lookup(v, id, terminating_entry(e, ms), id);
}

/// A session whose kill was confirmed is never SIGKILLed by its watchdog: after the
/// confirmation the entry is `Terminated`, for which the watchdog must not kill.
pub proof fn lemma_no_sigkill_after_confirmation(v: Seq<EntryView>, id: Seq<char>)
    requires
        registry_wf(v),
        has_session(v, id),
    ensures
        !(match lookup(replace_session(v, id, terminated_entry(lookup(v, id)->0)), id) {
            Some(e) => e.state != SessionState::Terminated,
            None => false,
        }),
{
    lemma_terminate_idempotent(v, id);
}

/// A renamed session is listed, and pushed to newly connected clients, under its
/// new name; every other session keeps its row.
pub proof fn lemma_rename_visible(v: Seq<EntryView>, id: Seq<char>, name: Seq<char>, other: Seq<char>)
    requires
        registry_wf(v),
        has_session(v, id),
    ensures
        ({
            let after = replace_session(v, id, renamed_entry(lookup(v, id)->0, name));
            &&& lookup(after, id) matches Some(e) && e.display_name == name
                && enriched_of(e).display_name == name && snapshot_of(e).display_name == name
            &&& other != id ==> lookup(after, other) == lookup(v, other)
        }),
{
    let e = lookup(v, id)->0;
    assert(v[index_of(v, id)].session_id == id);
    lemma_replace_lookup(v, id, renamed_entry(e, name), other);
}

/// A detach that loses the race against a termination does not resurrect the
/// session: the terminal state stands.
pub proof fn lemma_detach_never_resurrects(v: Seq<EntryView>, id: Seq<char>)
    requires
        registry_wf(v),
        has_session(v, id),
        is_terminal(lookup(v, id)->0.state),
    ensures
        ({
            let e = lookup(v, id)->0;
            lookup(replace_session(v, id, EntryView { has_proxy: false, ..e }), id) matches Some(after)
                && after.state == e.state
        }),
{
    let e = lookup(v, id)->0;
    assert(v[index_of(v, id)].session_id == id);
    lemma_replace_lookup(v, id, EntryView { has_proxy: false, ..e }, id);
}

/// Detaching and re-attaching a running session gives it back its running state
/// with a live proxy, every other field unchanged.
pub proof fn lemma_detach_attach_round_trip(e: EntryView)
    requires
        e.state == SessionState::Running,
    ensures
        attached_entry(detached_entry(e)) == (EntryView { has_conn: true, has_reader: false, has_proxy: true, ..e }),
{
}

/// After a spawn is committed, its ID is registered, so a second spawn with the same
/// ID is refused as a collision; the registry stays consistent.
pub proof fn lemma_spawned_is_registered(v: Seq<EntryView>, plan: SpawnPlan, pid: u32, socket: Seq<char>)
    requires
        registry_wf(v),
        !has_session(v, plan.session_id@),
        entry_wf(launching_entry(plan, pid, socket)),
    ensures
        has_session(v.push(launching_entry(plan, pid, socket)), plan.session_id@),
        lookup(v.push(launching_entry(plan, pid, socket)), plan.session_id@) == Some(launching_entry(plan, pid, socket)),
        registry_wf(v.push(launching_entry(plan, pid, socket))),
{
    let e = launching_entry(plan, pid, socket);
    let w = v.push(e);
    assert(w[v.len() as int].session_id == plan.session_id@);
    let k = index_of(w, plan.session_id@);
    assert(w[k].session_id == plan.session_id@);
    if k < v.len() {
        assert(w[k] == v[k]);
    }
    lemma_push_wf(v, e);
}

/// Session IDs are unique in every list the daemon sends.
pub proof fn lemma_listing_ids_unique(v: Seq<EntryView>)
    requires
        registry_wf(v),
    ensures
        forall|a: int, b: int|
            0 <= a < listing(v).len() && 0 <= b < listing(v).len() && a != b ==> #[trigger] listing(v)[a].session_id
                != #[trigger] listing(v)[b].session_id,
{
    assert forall|a: int, b: int|
        0 <= a < listing(v).len() && 0 <= b < listing(v).len() && a != b implies #[trigger] listing(v)[a].session_id
        != #[trigger] listing(v)[b].session_id by {
        assert(listing(v)[a] == enriched_of(v[a]));
        assert(listing(v)[b] == enriched_of(v[b]));
    }
}

/// A collected session is gone from the registry and from the list announced after
/// collection.
pub proof fn lemma_collected_not_listed(v: Seq<EntryView>, id: Seq<char>)
    requires
        registry_wf(v),
        has_session(v, id),
    ensures
        ({
            let after = v.remove(index_of(v, id));
            &&& !has_session(after, id)
            &&& forall|i: int| 0 <= i < listing(after).len() ==> #[trigger] listing(after)[i].session_id != id
        }),
{
    let i = index_of(v, id);
    assert(v[i].session_id == id);
    let w = v.remove(i);
    assert forall|k: int| 0 <= k < w.len() implies #[trigger] w[k].session_id != id by {
        let k2 = if k < i { k } else { k + 1 };
        assert(w[k] == v[k2]);
    }
    assert forall|k: int| 0 <= k < listing(w).len() implies #[trigger] listing(w)[k].session_id != id by {
        assert(listing(w)[k] == enriched_of(w[k]));
        assert(w[k].session_id != id);
    }
}

/// A dead session-host is reported as `kill_failed` on the kill path and as
/// `attach_failed` on every other path.
pub proof fn lemma_host_dead_code(op: IpcOp, e: SessionError)
    requires
        e is SessionHostDead,
    ensures
        op == IpcOp::Kill ==> error_code(op, e) == "kill_failed"@,
        op != IpcOp::Kill ==> error_code(op, e) == "attach_failed"@,
{
}

/// The call counter of a sequenced generator after `k` calls from a fresh one.
pub open spec fn calls_after(k: nat) -> usize
    decreases k,
{
    if k == 0 {
        0
    } else {
        next_count(calls_after((k - 1) as nat))
    }
}

/// A sequenced generator's counter counts its calls (until it wraps), so the k-th
/// call from a fresh generator yields `ids[k % ids.len()]`.
pub proof fn lemma_sequence_counts_calls(k: nat)
    requires
        k <= usize::MAX,
    ensures
        calls_after(k) == k,
    decreases k,
{
    if k > 0 {
        lemma_sequence_counts_calls((k - 1) as nat);
    }
}

// ---------------------------------------------------------------------------
// The kill protocol's outcomes
// ---------------------------------------------------------------------------

/// A fresh connect that fails, in either stage that attempts one, means the
/// session-host is gone: the session is terminated and the kill succeeds; it never
/// fails the kill.
pub proof fn lemma_failed_connect_terminates(stage: KillStage, a: KillAction, id: Seq<char>)
    requires
        stage == KillStage::FallbackConnecting || stage == KillStage::FreshConnecting,
        kill_action_fits(stage, KillEvent::Connected(false), a, id),
    ensures
        a is TerminateSession,
        !(a is Fail),
        kill_next_stage(stage, KillEvent::Connected(false)) == KillStage::Finished,
{
}

/// A peer that is not the daemon's user, in either stage that checks one, is
/// treated as a dead session-host: terminated, and the kill succeeds without
/// writing anything to it.
pub proof fn lemma_rejected_peer_terminates(stage: KillStage, a: KillAction, id: Seq<char>)
    requires
        stage == KillStage::FallbackChecking || stage == KillStage::FreshChecking,
        kill_action_fits(stage, KillEvent::PeerChecked(false), a, id),
    ensures
        a is TerminateSession,
        kill_next_stage(stage, KillEvent::PeerChecked(false)) == KillStage::Finished,
{
}

/// A kill fails only when Kill could not be delivered at all: its body was over the
/// frame limit, the write on a fresh (checked) connection failed, or the SIGTERM
/// was refused; a refused SIGTERM reports this session's host as dead.
pub proof fn lemma_kill_fails_only_undelivered(stage: KillStage, e: KillEvent, a: KillAction, id: Seq<char>)
    requires
        kill_action_fits(stage, e, a, id),
        a is Fail,
    ensures
        (e is Oversized && stage == KillStage::WritingExisting)
            || (e matches KillEvent::Written(r) && r is Err && (stage == KillStage::FallbackWriting
            || stage == KillStage::FreshWriting))
            || (e == KillEvent::Signalled(SignalOutcome::Failed) && stage == KillStage::Signalling && (
            a matches KillAction::Fail(SessionError::SessionHostDead { session_id: s }) && s@ == id)),
{
}

/// Kill written successfully on any connection always starts termination.
pub proof fn lemma_written_kill_starts_terminating(stage: KillStage, a: KillAction, id: Seq<char>)
    requires
        stage == KillStage::WritingExisting || stage == KillStage::FallbackWriting || stage
            == KillStage::FreshWriting,
        kill_action_fits(stage, KillEvent::Written(Ok(())), a, id),
    ensures
        a is StartTerminating,
{
}

// ---------------------------------------------------------------------------
// What lists and records carry
// ---------------------------------------------------------------------------

/// Every row of the session list is the registry entry at the same place: its ID,
/// harness, project name, start time and display name, with the status its state
/// calls for (live sessions active, detached ones idle, the rest stopped).
pub proof fn lemma_listing_rows(v: Seq<EntryView>, i: int)
    requires
        0 <= i < v.len(),
    ensures
        listing(v).len() == v.len(),
        listing(v)[i].session_id == v[i].session_id,
        listing(v)[i].harness_id == v[i].harness_id,
        listing(v)[i].project_name == v[i].project_name,
        listing(v)[i].started_at == v[i].started_at,
        listing(v)[i].display_name == v[i].display_name,
        (listing(v)[i].status == SessionStatus::Active) <==> (v[i].state == SessionState::Launching
            || v[i].state == SessionState::Running),
        (listing(v)[i].status == SessionStatus::Idle) <==> (v[i].state == SessionState::Detached),
        (listing(v)[i].status == SessionStatus::Stopped) <==> is_terminal(v[i].state),
{
}

/// A snapshot row sent to a newly connected client is its registry entry, field
/// for field.
pub proof fn lemma_snapshot_fields(e: EntryView)
    ensures
        snapshot_of(e).session_id == e.session_id,
        snapshot_of(e).harness_id == e.harness_id,
        snapshot_of(e).profile_id == e.profile_id,
        snapshot_of(e).display_name == e.display_name,
        snapshot_of(e).project_root == e.project_root,
        snapshot_of(e).cwd == e.cwd,
        snapshot_of(e).state == e.state,
        snapshot_of(e).started_at == e.started_at,
        snapshot_of(e).degraded == e.degraded,
        snapshot_of(e).degraded_reason == e.degraded_reason,
{
}

/// The sidecar written right after a spawn records the request as planned, the
/// session-host's PID and socket, `Launching`, no child yet and no deadline; and it
/// agrees with the registry entry the same spawn registers.
pub proof fn lemma_launching_sidecar_copies_plan(p: SpawnPlan, pid: u32, socket: Seq<char>)
    ensures
        launching_sidecar_of(p, pid, socket).session_id == p.session_id@,
        launching_sidecar_of(p, pid, socket).harness_id == p.harness_id@,
        launching_sidecar_of(p, pid, socket).profile_id == p.profile_id@,
        launching_sidecar_of(p, pid, socket).project_root == p.project_root@,
        launching_sidecar_of(p, pid, socket).cwd == p.cwd@,
        launching_sidecar_of(p, pid, socket).started_at == p.started_at@,
        launching_sidecar_of(p, pid, socket).display_name == p.display_name@,
        launching_sidecar_of(p, pid, socket).pid == pid,
        launching_sidecar_of(p, pid, socket).socket_path == socket,
        launching_sidecar_of(p, pid, socket).state == SessionState::Launching,
        launching_sidecar_of(p, pid, socket).child_pid is None,
        launching_sidecar_of(p, pid, socket).kill_deadline_unix_ms is None,
        launching_sidecar_of(p, pid, socket).schema_version == 3,
        launching_sidecar_of(p, pid, socket).session_id == launching_entry(p, pid, socket).session_id,
        launching_sidecar_of(p, pid, socket).harness_id == launching_entry(p, pid, socket).harness_id,
        launching_sidecar_of(p, pid, socket).profile_id == launching_entry(p, pid, socket).profile_id,
        launching_sidecar_of(p, pid, socket).display_name == launching_entry(p, pid, socket).display_name,
        launching_sidecar_of(p, pid, socket).state == launching_entry(p, pid, socket).state,
{
}

/// The sidecar re-persisted at `Running` keeps every daemon-owned field of the
/// registry entry; only the state (now `Running`), the socket and the child PID are
/// set anew, and the deadline is cleared.
pub proof fn lemma_running_sidecar_keeps_entry(e: EntryView, socket: Seq<char>, child: Option<u32>)
    ensures
        running_sidecar_of(e, socket, child).session_id == e.session_id,
        running_sidecar_of(e, socket, child).pid == e.pid,
        running_sidecar_of(e, socket, child).harness_id == e.harness_id,
        running_sidecar_of(e, socket, child).profile_id == e.profile_id,
        running_sidecar_of(e, socket, child).project_root == e.project_root,
        running_sidecar_of(e, socket, child).cwd == e.cwd,
        running_sidecar_of(e, socket, child).started_at == e.started_at,
        running_sidecar_of(e, socket, child).display_name == e.display_name,
        running_sidecar_of(e, socket, child).socket_path == socket,
        running_sidecar_of(e, socket, child).child_pid == child,
        running_sidecar_of(e, socket, child).state == SessionState::Running,
        running_sidecar_of(e, socket, child).kill_deadline_unix_ms is None,
{
}

/// The sidecar a spawned session is re-persisted with at `Running` is the one
/// written at spawn, with only the state and the child PID changed.
pub proof fn lemma_running_sidecar_follows_launching(p: SpawnPlan, pid: u32, socket: Seq<char>, child: Option<u32>)
    ensures
        running_sidecar_of(launching_entry(p, pid, socket), socket, child) == (crate::sidecar::SidecarView {
            state: SessionState::Running,
            child_pid: child,
            ..launching_sidecar_of(p, pid, socket)
        }),
{
}

// ---------------------------------------------------------------------------
// Wire codes
// ---------------------------------------------------------------------------

/// Every error has one wire code whatever operation raised it, except a dead
/// session-host, which is `kill_failed` on the kill path and `attach_failed` on
/// every other path.
pub proof fn lemma_codes_per_variant(op: IpcOp, other: IpcOp, e: SessionError)
    ensures
        !(e is SessionHostDead) ==> error_code(op, e) == error_code(other, e),
        e is SessionNotFound ==> error_code(op, e) == "session_not_found"@,
        e is SpawnFailed ==> error_code(op, e) == "spawn_failed"@,
        e is SidecarWriteFailed ==> error_code(op, e) == "sidecar_write_failed"@,
        e is SessionIdCollision ==> error_code(op, e) == "session_id_collision"@,
        e is InvalidSessionName ==> error_code(op, e) == "rename_failed"@,
        e is SessionNotReady ==> error_code(op, e) == "session_not_ready"@,
        e is Io ==> error_code(op, e) == "invalid_request"@,
        e is SessionHostDead ==> error_code(op, e) == (if op == IpcOp::Kill {
            "kill_failed"@
        } else {
            "attach_failed"@
        }),
        (e matches SessionError::EngineError(inner) && inner is UnsupportedOperation) ==> error_code(op, e)
            == "spawn_unsupported"@,
        (e matches SessionError::EngineError(inner) && inner is BinaryNotFound) ==> error_code(op, e)
            == "binary_not_found"@,
        (e matches SessionError::EngineError(inner) && inner is InvalidPath) ==> error_code(op, e)
            == "invalid_spawn_arg"@,
        (e matches SessionError::EngineError(inner) && inner is Other) ==> error_code(op, e) == "invalid_request"@,
{
}

// ---------------------------------------------------------------------------
// What each transition keeps and changes
// ---------------------------------------------------------------------------

/// Two entries describe the same session: same ID, session-host, socket, harness,
/// profile, project, working directory, start time and name.
pub open spec fn same_session(a: EntryView, b: EntryView) -> bool {
    &&& a.session_id == b.session_id
    &&& a.pid == b.pid
    &&& a.socket == b.socket
    &&& a.harness_id == b.harness_id
    &&& a.profile_id == b.profile_id
    &&& a.project_root == b.project_root
    &&& a.project_name == b.project_name
    &&& a.cwd == b.cwd
    &&& a.started_at == b.started_at
}

/// No transition changes which session an entry describes; each changes only what
/// it is about: the kill start sets `Terminating` and the deadline, termination sets
/// `Terminated` and clears it, a detach drops the connection, an attach brings a
/// connection and a proxy, a rename the name, a degraded report the reason.
pub proof fn lemma_transitions_keep_the_session(e: EntryView, ms: u64, name: Seq<char>, reason: Seq<char>)
    ensures
        same_session(terminating_entry(e, ms), e) && terminating_entry(e, ms).display_name == e.display_name,
        terminating_entry(e, ms).state == SessionState::Terminating,
        terminating_entry(e, ms).kill_deadline == Some(ms),
        terminating_entry(e, ms).has_conn == e.has_conn && terminating_entry(e, ms).has_proxy == e.has_proxy,
        same_session(terminated_entry(e), e) && terminated_entry(e).display_name == e.display_name,
        terminated_entry(e).state == SessionState::Terminated,
        terminated_entry(e).kill_deadline is None,
        terminated_entry(terminating_entry(e, ms)) == terminated_entry(e),
        same_session(detached_entry(e), e) && detached_entry(e).display_name == e.display_name,
        detached_entry(e).state == SessionState::Detached,
        !detached_entry(e).has_conn && !detached_entry(e).has_reader && !detached_entry(e).has_proxy,
        same_session(attached_entry(e), e) && attached_entry(e).display_name == e.display_name,
        attached_entry(e).state == SessionState::Running,
        attached_entry(e).has_conn && attached_entry(e).has_proxy && !attached_entry(e).has_reader,
        same_session(connected_entry(e), e) && connected_entry(e).state == e.state,
        connected_entry(e).has_conn && !connected_entry(e).has_reader && !connected_entry(e).has_proxy,
        same_session(renamed_entry(e, name), e) && renamed_entry(e, name).display_name == name,
        renamed_entry(e, name).state == e.state,
        same_session(degraded_entry(e, reason), e) && degraded_entry(e, reason).state == e.state,
        degraded_entry(e, reason).degraded && degraded_entry(e, reason).degraded_reason == Some(reason),
        same_session(with_state(e, SessionState::Terminated), e),
        with_state(e, SessionState::Running).state == SessionState::Running,
{
}

/// A spawn registers the planned session, `Launching`, with its session-host's
/// PID and socket, undegraded and without a connection yet; a direct registration
/// stores what it was given.
pub proof fn lemma_registered_entries(p: SpawnPlan, pid: u32, socket: Seq<char>, g: Registration)
    ensures
        launching_entry(p, pid, socket).session_id == p.session_id@,
        launching_entry(p, pid, socket).pid == pid,
        launching_entry(p, pid, socket).socket == socket,
        launching_entry(p, pid, socket).harness_id == p.harness_id@,
        launching_entry(p, pid, socket).profile_id == p.profile_id@,
        launching_entry(p, pid, socket).project_root == p.project_root@,
        launching_entry(p, pid, socket).cwd == p.cwd@,
        launching_entry(p, pid, socket).started_at == p.started_at@,
        launching_entry(p, pid, socket).display_name == p.display_name@,
        launching_entry(p, pid, socket).state == SessionState::Launching,
        !launching_entry(p, pid, socket).degraded && !launching_entry(p, pid, socket).has_conn,
        launching_entry(p, pid, socket).kill_deadline is None,
        registered_entry(g).session_id == g.session_id@,
        registered_entry(g).pid == g.session_host_pid,
        registered_entry(g).socket == g.session_host_socket@,
        registered_entry(g).state == g.state,
        registered_entry(g).harness_id == g.harness_id@,
        registered_entry(g).profile_id == g.profile_id@,
        registered_entry(g).project_root == g.project_root@,
        registered_entry(g).cwd == g.cwd@,
        registered_entry(g).started_at == g.started_at@,
        registered_entry(g).display_name == g.display_name@,
        registered_entry(g).kill_deadline == g.kill_deadline_unix_ms,
        registered_entry(g).has_conn == g.has_conn,
{
}

/// The sidecar updates: the kill start writes `Terminating` with its deadline,
/// termination writes `Terminated` and clears the deadline, a detach writes
/// `Detached` and keeps it, and a rename writes the name alone.
pub proof fn lemma_sidecar_updates(ms: u64, name: Seq<char>)
    ensures
        terminating_patch(ms).state == Some(SessionState::Terminating),
        terminating_patch(ms).kill_deadline == DeadlinePatch::Write(ms),
        terminating_patch(ms).display_name is None,
        terminated_patch().state == Some(SessionState::Terminated),
        terminated_patch().kill_deadline == DeadlinePatch::Clear,
        terminated_patch().display_name is None,
        detached_patch().state == Some(SessionState::Detached),
        detached_patch().kill_deadline == DeadlinePatch::Keep,
        detached_patch().display_name is None,
        rename_patch(name).state is None,
        rename_patch(name).kill_deadline == DeadlinePatch::Keep,
        rename_patch(name).display_name == Some(name),
{
}

/// The kill route follows the session's state and connection: a killed or dying
/// session needs nothing more; a detached one, or a running one without a
/// connection, is reached by a fresh connect; a launching one without a connection
/// by SIGTERM; one with a connection over that connection. Every route targets the
/// entry's own session-host.
pub proof fn lemma_kill_route(p: KillPlan, e: EntryView)
    requires
        kill_plan_fits(p, e),
    ensures
        is_terminal(e.state) <==> p is Idempotent,
        e.state == SessionState::Detached ==> p is FreshConnect,
        (e.state == SessionState::Launching && !e.has_conn) ==> p is PidFallback,
        ((e.state == SessionState::Launching || e.state == SessionState::Running) && e.has_conn) ==> p is ExistingConn,
        (e.state == SessionState::Running && !e.has_conn) ==> p is FreshConnect,
        p matches KillPlan::ExistingConn { pid, socket_path } ==> pid == e.pid && socket_path@ == e.socket,
        p matches KillPlan::PidFallback { pid, socket_path } ==> pid == e.pid && socket_path@ == e.socket,
        p matches KillPlan::FreshConnect { pid, socket_path } ==> pid == e.pid && socket_path@ == e.socket,
{
}

// ---------------------------------------------------------------------------
// Names, PIDs and deadlines
// ---------------------------------------------------------------------------

/// A display name is accepted exactly when it is non-empty, at most 256 bytes of
/// UTF-8, and free of control characters, `/` and `\`; the reason of a rejection
/// names the first rule broken, in that order.
pub proof fn lemma_display_name_rules(name: Seq<char>)
    ensures
        display_name_rejection(name) is None <==> (name.len() > 0 && utf8_len(name) <= 256 && (forall|i: int|
            0 <= i < name.len() ==> !#[trigger] is_forbidden_name_char(name[i]))),
        name.len() == 0 ==> display_name_rejection(name) == Some("name must not be empty"@),
        name.len() > 0 && utf8_len(name) > 256 ==> display_name_rejection(name) == Some(
            "name exceeds 256-byte limit"@,
        ),
        (name.len() > 0 && utf8_len(name) <= 256 && exists|i: int|
            0 <= i < name.len() && #[trigger] is_forbidden_name_char(name[i])) ==> display_name_rejection(name)
            == Some("name contains forbidden character (control char, '/', or '\\')"@),
{
}

/// The default display name begins with the harness and ends with the project
/// root's last component (or `unknown` when it has none).
pub proof fn lemma_default_display_name_parts(harness: Seq<char>, root: Seq<char>)
    ensures
        default_display_name_of(harness, root).len() > harness.len(),
        default_display_name_of(harness, root).subrange(0, harness.len() as int) == harness,
        path_file_name(root) matches Some(b) ==> default_display_name_of(harness, root).subrange(
            default_display_name_of(harness, root).len() - b.len(),
            default_display_name_of(harness, root).len() as int,
        ) == b,
        path_file_name(root) is None ==> default_display_name_of(harness, root).subrange(
            default_display_name_of(harness, root).len() - 7,
            default_display_name_of(harness, root).len() as int,
        ) == "unknown"@,
{
    let d = default_display_name_of(harness, root);
    let sep = " \u{2014} "@;
    reveal_strlit(" \u{2014} ");
    reveal_strlit("unknown");
    match path_file_name(root) {
        Some(b) => {
            assert(d == harness + sep + b);
            assert(d.subrange(0, harness.len() as int) =~= harness);
            assert(d.subrange(d.len() - b.len(), d.len() as int) =~= b);
        },
        None => {
            assert(d == harness + sep + "unknown"@);
            assert(d.subrange(0, harness.len() as int) =~= harness);
            assert(d.subrange(d.len() - 7, d.len() as int) =~= "unknown"@);
        },
    }
}

/// The watchdog signals only a positive PID that fits `pid_t`, the one recorded;
/// such a PID is also the one carried into the `Running` sidecar.
pub proof fn lemma_child_pid_rules(raw: Option<u64>)
    ensures
        valid_child_pid_of(raw) matches Some(p) ==> (0 < p && p <= 0x7fff_ffff && raw == Some(p as u64)),
        (raw matches Some(n) && 0 < n && n <= 0x7fff_ffff) ==> valid_child_pid_of(raw) is Some,
        valid_child_pid_of(raw) is Some ==> carried_child_pid_of(raw) == valid_child_pid_of(raw),
        raw is None ==> valid_child_pid_of(raw) is None && carried_child_pid_of(raw) is None,
        raw matches Some(n) ==> (n <= 0xffff_ffff ==> carried_child_pid_of(raw) == Some(n as u32)),
{
}

/// The kill deadline is the clock plus the time left when that fits a `u64`, never
/// earlier than the clock, and `0` without a clock.
pub proof fn lemma_kill_deadline_ms(now: Option<u128>, remaining: u128)
    ensures
        now is None ==> kill_deadline_ms_of(now, remaining) == 0,
        now matches Some(n) ==> (n + remaining <= u64::MAX ==> kill_deadline_ms_of(now, remaining) == n + remaining),
        now matches Some(n) ==> (n <= u64::MAX ==> kill_deadline_ms_of(now, remaining) >= n),
        (now matches Some(n) && n + remaining > u64::MAX) ==> kill_deadline_ms_of(now, remaining) == u64::MAX,
{
}

// ---------------------------------------------------------------------------
// Spawn order, command line, degraded reasons, sidecar members
// ---------------------------------------------------------------------------

/// When every step succeeds, a spawn starts the session-host, then writes the
/// sidecar, then registers, then completes, carrying the session-host's PID along.
pub proof fn lemma_spawn_success_order(pid: u32)
    ensures
        spawn_next_stage(SpawnStage::Recipe, SpawnEvent::RecipeBuilt(Ok(()))) == SpawnStage::Starting,
        spawn_next_stage(SpawnStage::Starting, SpawnEvent::HostStarted(Ok(pid))) == (SpawnStage::WritingSidecar { pid }),
        spawn_next_stage(SpawnStage::WritingSidecar { pid }, SpawnEvent::SidecarWritten(Ok(())))
            == (SpawnStage::Registering { pid }),
        spawn_next_stage(SpawnStage::Registering { pid }, SpawnEvent::Registered(Ok(()))) == SpawnStage::Finished,
        forall|a: SpawnAction| spawn_action_fits(SpawnStage::Recipe, SpawnEvent::RecipeBuilt(Ok(())), a) ==> a is StartHost,
        forall|a: SpawnAction|
            spawn_action_fits(SpawnStage::Starting, SpawnEvent::HostStarted(Ok(pid)), a) ==> a is WriteSidecar,
        forall|a: SpawnAction|
            spawn_action_fits(SpawnStage::WritingSidecar { pid }, SpawnEvent::SidecarWritten(Ok(())), a) ==> a is Register,
        forall|a: SpawnAction|
            spawn_action_fits(SpawnStage::Registering { pid }, SpawnEvent::Registered(Ok(())), a) ==> a is Complete,
{
}

/// The session-host's command line gives each recipe field after its own flag.
pub proof fn lemma_host_argv_pairs(id: Seq<char>, dir: Seq<char>, bin: Seq<char>, args: Seq<char>, env: Seq<char>, cwd: Seq<char>)
    ensures
        host_argv(id, dir, bin, args, env, cwd).len() == 12,
        host_argv(id, dir, bin, args, env, cwd)[0] == "--session-id"@ && host_argv(id, dir, bin, args, env, cwd)[1] == id,
        host_argv(id, dir, bin, args, env, cwd)[2] == "--runtime-dir"@ && host_argv(id, dir, bin, args, env, cwd)[3] == dir,
        host_argv(id, dir, bin, args, env, cwd)[4] == "--binary"@ && host_argv(id, dir, bin, args, env, cwd)[5] == bin,
        host_argv(id, dir, bin, args, env, cwd)[6] == "--args"@ && host_argv(id, dir, bin, args, env, cwd)[7] == args,
        host_argv(id, dir, bin, args, env, cwd)[8] == "--env"@ && host_argv(id, dir, bin, args, env, cwd)[9] == env,
        host_argv(id, dir, bin, args, env, cwd)[10] == "--cwd"@ && host_argv(id, dir, bin, args, env, cwd)[11] == cwd,
{
}

/// The degraded reason lists the missing variables after `Missing env: `, one
/// alone as itself, two separated by `, `.
pub proof fn lemma_degraded_reason(a: Seq<char>, b: Seq<char>)
    ensures
        degraded_reason_of(seq![a]) == "Missing env: "@ + a,
        degraded_reason_of(seq![a, b]) == "Missing env: "@ + a + ", "@ + b,
{
    assert(seq![a, b].drop_last() =~= seq![a]);
    assert(join_with(seq![a], ", "@) == a);
    assert(join_with(seq![a, b], ", "@) == a + ", "@ + b);
}

/// Setting a member leaves it holding the value, and leaves every member with
/// another key where and as it was.
pub proof fn lemma_set_member(m: Seq<(Seq<char>, Seq<char>)>, key: Seq<char>, val: Seq<char>, i: int)
    ensures
        set_member(m, key, val).len() >= m.len(),
        exists|j: int| 0 <= j < set_member(m, key, val).len() && #[trigger] set_member(m, key, val)[j] == (key, val),
        forall|j: int| 0 <= j < set_member(m, key, val).len() && (#[trigger] set_member(m, key, val)[j]).0 == key
            ==> set_member(m, key, val)[j].1 == val,
        0 <= i < m.len() && m[i].0 != key ==> set_member(m, key, val)[i] == m[i],
{
    if exists|j: int| 0 <= j < m.len() && (#[trigger] m[j]).0 == key {
        let j = choose|j: int| 0 <= j < m.len() && (#[trigger] m[j]).0 == key;
        assert(set_member(m, key, val)[j] == (key, val));
    } else {
        assert(set_member(m, key, val)[m.len() as int] == (key, val));
    }
}

/// A state patch leaves the sidecar's `state` member holding the state's JSON
/// name, whatever the deadline and name parts of the patch do.
pub proof fn lemma_patch_writes_state(m: Seq<(Seq<char>, Seq<char>)>, p: crate::sidecar::PatchView)
    requires
        p.state is Some,
    ensures
        exists|j: int| 0 <= j < patched_members(m, p).len() && #[trigger] patched_members(m, p)[j] == (
            "state"@,
            json_string_text(state_name(p.state->0)),
        ),
{
    reveal_strlit("state");
    reveal_strlit("kill_deadline_unix_ms");
    reveal_strlit("display_name");
    let v = json_string_text(state_name(p.state->0));
    let m1 = set_member(m, "state"@, v);
    lemma_set_member(m, "state"@, v, 0);
    let j = choose|j: int| 0 <= j < m1.len() && #[trigger] m1[j] == ("state"@, v);
    assert("state"@.len() == 5 && "kill_deadline_unix_ms"@.len() == 21 && "display_name"@.len() == 12);
    assert("state"@ != "kill_deadline_unix_ms"@);
    assert("state"@ != "display_name"@);
    let m2 = match p.kill_deadline {
        DeadlinePatch::Keep => m1,
        DeadlinePatch::Clear => set_member(m1, "kill_deadline_unix_ms"@, "null"@),
        DeadlinePatch::Write(ms) => set_member(m1, "kill_deadline_unix_ms"@, crate::names::decimal(ms as nat)),
    };
    match p.kill_deadline {
        DeadlinePatch::Keep => {},
        DeadlinePatch::Clear => lemma_set_member(m1, "kill_deadline_unix_ms"@, "null"@, j),
        DeadlinePatch::Write(ms) => lemma_set_member(m1, "kill_deadline_unix_ms"@, crate::names::decimal(ms as nat), j),
    }
    assert(m2[j] == ("state"@, v));
    match p.display_name {
        Some(n) => {
            lemma_set_member(m2, "display_name"@, json_string_text(n), j);
            assert(patched_members(m, p)[j] == ("state"@, v));
        },
        None => {
            assert(patched_members(m, p)[j] == ("state"@, v));
        },
    }
}

} // verus!
