use vstd::prelude::*;
use vstd::string::StringExecFns;

use crate::model::{is_terminal, session_status, status_of, SessionError, SessionState, SessionStatus};
use crate::sidecar::{
    SessionSidecar, SidecarView, SIDECAR_SCHEMA_VERSION, DEFAULT_PTY_ROWS, DEFAULT_PTY_COLS,
    detached_patch, make_detached_patch, make_rename_patch, make_terminated_patch,
    make_terminating_patch, rename_patch, terminated_patch, terminating_patch, PatchView,
    SidecarPatch,
};
use crate::names::{
    copy_opt, default_display_name, default_display_name_of, invalid_id_message,
    invalid_id_reason, is_valid_session_id, opt_text, path_file_name, project_basename,
    same_text, sidecar_file_name, sidecar_file_name_of, uuid_text, validate_display_name,
    display_name_rejection,
};

verus! {

// ---------------------------------------------------------------------------
// Entries and their views
// ---------------------------------------------------------------------------

/// One session in the registry.
#[derive(Debug)]
pub struct SessionEntry {
    pub session_id: String,
    pub session_host_pid: u32,
    pub session_host_socket: String,
    pub state: SessionState,
    /// Working directory of the harness child process.
    pub cwd: String,
    /// Project root chosen by the user.
    pub project_root: String,
    /// Last component of the project root, when it has one.
    pub project_name: Option<String>,
    pub harness_id: String,
    pub profile_id: String,
    /// Start time, RFC 3339.
    pub started_at: String,
    /// Human-readable name; set at spawn, changed by renames.
    pub display_name: String,
    /// Kill deadline in Unix milliseconds, set when the kill protocol starts.
    pub kill_deadline_unix_ms: Option<u64>,
    /// The session-host reported missing critical environment variables.
    pub degraded: bool,
    pub degraded_reason: Option<String>,
    /// A control connection to the session-host is established.
    pub has_conn: bool,
    /// The control connection's read half is parked for kill confirmation.
    pub has_reader: bool,
    /// A PTY proxy task reads the control connection.
    pub has_proxy: bool,
}

/// The mathematical value of a `SessionEntry`.
pub struct EntryView {
    pub session_id: Seq<char>,
    pub pid: u32,
    pub socket: Seq<char>,
    pub state: SessionState,
    pub cwd: Seq<char>,
    pub project_root: Seq<char>,
    pub project_name: Option<Seq<char>>,
    pub harness_id: Seq<char>,
    pub profile_id: Seq<char>,
    pub started_at: Seq<char>,
    pub display_name: Seq<char>,
    pub kill_deadline: Option<u64>,
    pub degraded: bool,
    pub degraded_reason: Option<Seq<char>>,
    pub has_conn: bool,
    pub has_reader: bool,
    pub has_proxy: bool,
}

impl View for SessionEntry {
    type V = EntryView;

    open spec fn view(&self) -> EntryView {
        EntryView {
            session_id: self.session_id@,
            pid: self.session_host_pid,
            socket: self.session_host_socket@,
            state: self.state,
            cwd: self.cwd@,
            project_root: self.project_root@,
            project_name: opt_text(self.project_name),
            harness_id: self.harness_id@,
            profile_id: self.profile_id@,
            started_at: self.started_at@,
            display_name: self.display_name@,
            kill_deadline: self.kill_deadline_unix_ms,
            degraded: self.degraded,
            degraded_reason: opt_text(self.degraded_reason),
            has_conn: self.has_conn,
            has_reader: self.has_reader,
            has_proxy: self.has_proxy,
        }
    }
}

/// An entry is consistent: its project name is the last component of its project
/// root, and a parked reader or a proxy task only exists on a control connection.
pub open spec fn entry_wf(e: EntryView) -> bool {
    &&& e.project_name == path_file_name(e.project_root)
    &&& (e.has_reader || e.has_proxy) ==> e.has_conn
}

/// The registry is consistent: every entry is, and no session ID occurs twice.
pub open spec fn registry_wf(v: Seq<EntryView>) -> bool {
    &&& forall|i: int| 0 <= i < v.len() ==> entry_wf(#[trigger] v[i])
    &&& forall|i: int, j: int|
        0 <= i < v.len() && 0 <= j < v.len() && i != j ==> #[trigger] v[i].session_id
            != #[trigger] v[j].session_id
}

/// The registry holds a session with this ID.
pub open spec fn has_session(v: Seq<EntryView>, id: Seq<char>) -> bool {
    exists|i: int| 0 <= i < v.len() && #[trigger] v[i].session_id == id
}

/// The position of the session with this ID.
pub open spec fn index_of(v: Seq<EntryView>, id: Seq<char>) -> int {
    choose|i: int| 0 <= i < v.len() && #[trigger] v[i].session_id == id
}

/// The session with this ID, if the registry holds it.
pub open spec fn lookup(v: Seq<EntryView>, id: Seq<char>) -> Option<EntryView> {
    if has_session(v, id) {
        Some(v[index_of(v, id)])
    } else {
        None
    }
}

/// The registry with the session of this ID replaced by `e`; unchanged when absent.
pub open spec fn replace_session(v: Seq<EntryView>, id: Seq<char>, e: EntryView) -> Seq<EntryView> {
    if has_session(v, id) {
        v.update(index_of(v, id), e)
    } else {
        v
    }
}

/// The entry in another state.
pub open spec fn with_state(e: EntryView, s: SessionState) -> EntryView {
    EntryView { state: s, ..e }
}

// ---------------------------------------------------------------------------
// Broadcast payloads
// ---------------------------------------------------------------------------

/// One row of a `SessionListUpdate`.
#[derive(Debug, Clone)]
pub struct EnrichedSession {
    pub session_id: String,
    pub harness_id: String,
    pub status: SessionStatus,
    pub project_name: Option<String>,
    pub started_at: String,
    pub display_name: String,
}

/// The mathematical value of an `EnrichedSession`.
pub struct EnrichedView {
    pub session_id: Seq<char>,
    pub harness_id: Seq<char>,
    pub status: SessionStatus,
    pub project_name: Option<Seq<char>>,
    pub started_at: Seq<char>,
    pub display_name: Seq<char>,
}

impl View for EnrichedSession {
    type V = EnrichedView;

    open spec fn view(&self) -> EnrichedView {
        EnrichedView {
            session_id: self.session_id@,
            harness_id: self.harness_id@,
            status: self.status,
            project_name: opt_text(self.project_name),
            started_at: self.started_at@,
            display_name: self.display_name@,
        }
    }
}

/// The list row of an entry.
pub open spec fn enriched_of(e: EntryView) -> EnrichedView {
    EnrichedView {
        session_id: e.session_id,
        harness_id: e.harness_id,
        status: status_of(e.state),
        project_name: e.project_name,
        started_at: e.started_at,
        display_name: e.display_name,
    }
}

/// The session list of a registry, in registry order.
pub open spec fn listing(v: Seq<EntryView>) -> Seq<EnrichedView> {
    v.map_values(|e: EntryView| enriched_of(e))
}

/// A message pushed to every connected TUI client.
#[derive(Debug, Clone)]
pub enum ServerToClient {
    /// A session changed state.
    SessionStateChanged { session_id: String, new_state: SessionState },
    /// The full session list after a change.
    SessionListUpdate { sessions: Vec<EnrichedSession> },
}

/// The mathematical value of a broadcast.
pub enum EventView {
    StateChanged(Seq<char>, SessionState),
    ListUpdate(Seq<EnrichedView>),
}

impl View for ServerToClient {
    type V = EventView;

    open spec fn view(&self) -> EventView {
        match self {
            ServerToClient::SessionStateChanged { session_id, new_state } => EventView::StateChanged(
                session_id@,
                *new_state,
            ),
            ServerToClient::SessionListUpdate { sessions } => EventView::ListUpdate(
                sessions@.map_values(|r: EnrichedSession| r@),
            ),
        }
    }
}

/// The values of a sequence of broadcasts.
pub open spec fn events_view(ev: Seq<ServerToClient>) -> Seq<EventView> {
    ev.map_values(|m: ServerToClient| m@)
}

/// The broadcasts of a state transition: the state change first, then the list as
/// it stands after the transition.
pub open spec fn transition_events(id: Seq<char>, s: SessionState, after: Seq<EntryView>) -> Seq<EventView> {
    seq![EventView::StateChanged(id, s), EventView::ListUpdate(listing(after))]
}

/// The broadcast of a metadata change: the list alone.
pub open spec fn list_events(after: Seq<EntryView>) -> Seq<EventView> {
    seq![EventView::ListUpdate(listing(after))]
}

/// One row of the session list pushed to a newly connected client.
#[derive(Debug, Clone)]
pub struct SessionSnapshot {
    pub session_id: String,
    pub harness_id: String,
    pub profile_id: String,
    pub display_name: String,
    pub project_root: String,
    pub cwd: String,
    pub state: SessionState,
    pub started_at: String,
    pub degraded: bool,
    pub degraded_reason: Option<String>,
}

/// The mathematical value of a `SessionSnapshot`.
pub struct SnapshotView {
    pub session_id: Seq<char>,
    pub harness_id: Seq<char>,
    pub profile_id: Seq<char>,
    pub display_name: Seq<char>,
    pub project_root: Seq<char>,
    pub cwd: Seq<char>,
    pub state: SessionState,
    pub started_at: Seq<char>,
    pub degraded: bool,
    pub degraded_reason: Option<Seq<char>>,
}

impl View for SessionSnapshot {
    type V = SnapshotView;

    open spec fn view(&self) -> SnapshotView {
        SnapshotView {
            session_id: self.session_id@,
            harness_id: self.harness_id@,
            profile_id: self.profile_id@,
            display_name: self.display_name@,
            project_root: self.project_root@,
            cwd: self.cwd@,
            state: self.state,
            started_at: self.started_at@,
            degraded: self.degraded,
            degraded_reason: opt_text(self.degraded_reason),
        }
    }
}

/// The snapshot row of an entry.
pub open spec fn snapshot_of(e: EntryView) -> SnapshotView {
    SnapshotView {
        session_id: e.session_id,
        harness_id: e.harness_id,
        profile_id: e.profile_id,
        display_name: e.display_name,
        project_root: e.project_root,
        cwd: e.cwd,
        state: e.state,
        started_at: e.started_at,
        degraded: e.degraded,
        degraded_reason: e.degraded_reason,
    }
}

// ---------------------------------------------------------------------------
// The registry
// ---------------------------------------------------------------------------

/// The daemon's registry of sessions, keyed by session ID.
#[derive(Debug)]
pub struct SessionTable {
    entries: Vec<SessionEntry>,
}

impl View for SessionTable {
    type V = Seq<EntryView>;

    closed spec fn view(&self) -> Seq<EntryView> {
        self.entries@.map_values(|e: SessionEntry| e@)
    }
}

impl SessionTable {
    /// The registry is consistent.
    pub open spec fn wf(&self) -> bool {
        registry_wf(self@)
    }

    /// An empty registry.
    pub fn new() -> (t: Self)
        ensures
            t@ == Seq::<EntryView>::empty(),
            t.wf(),
    {
        let t = SessionTable { entries: Vec::new() };
        assert(t@ =~= Seq::<EntryView>::empty());
        t
    }

    /// Number of sessions.
    pub fn len(&self) -> (n: usize)
        ensures
            n == self@.len(),
    {
        self.entries.len()
    }

    /// The position of the session with this ID.
    fn find(&self, id: &str) -> (r: Option<usize>)
        requires
            self.wf(),
        ensures
            match r {
                Some(i) => has_session(self@, id@) && i == index_of(self@, id@) && i < self@.len(),
                None => !has_session(self@, id@),
            },
    {
        let n = self.entries.len();
        let mut i: usize = 0;
        while i < n
            invariant
                n == self.entries@.len(),
                n == self@.len(),
                self@ == self.entries@.map_values(|e: SessionEntry| e@),
                registry_wf(self@),
                i <= n,
                forall|j: int| 0 <= j < i ==> self@[j].session_id != id@,
            decreases n - i,
        {
            if same_text(self.entries[i].session_id.as_str(), id) {
                assert(self@[i as int].session_id == id@);
                assert(has_session(self@, id@));
                let ghost k = index_of(self@, id@);
                assert(self@[k].session_id == id@);
                assert(k == i);
                return Some(i);
            }
            i = i + 1;
        }
        assert(!has_session(self@, id@)) by {
            if has_session(self@, id@) {
                let k = choose|k: int| 0 <= k < self@.len() && #[trigger] self@[k].session_id == id@;
                assert(self@[k].session_id != id@);
            }
        }
        None
    }

    /// Whether the registry holds a session with this ID.
    pub fn contains(&self, id: &str) -> (r: bool)
        requires
            self.wf(),
        ensures
            r == has_session(self@, id@),
    {
        self.find(id).is_some()
    }

    /// The state of the session with this ID.
    pub fn state_of(&self, id: &str) -> (r: Option<SessionState>)
        requires
            self.wf(),
        ensures
            r == (match lookup(self@, id@) {
                Some(e) => Some(e.state),
                None => None,
            }),
    {
        match self.find(id) {
            Some(i) => Some(self.entries[i].state),
            None => None,
        }
    }

    /// The session with this ID.
    pub fn get(&self, id: &str) -> (r: Option<&SessionEntry>)
        requires
            self.wf(),
        ensures
            match r {
                Some(e) => lookup(self@, id@) == Some(e@),
                None => lookup(self@, id@) is None,
            },
    {
        match self.find(id) {
            Some(i) => Some(&self.entries[i]),
            None => None,
        }
    }

    /// The list row of one entry.
    fn enriched_row(e: &SessionEntry) -> (r: EnrichedSession)
        ensures
            r@ == enriched_of(e@),
    {
        EnrichedSession {
            session_id: e.session_id.clone(),
            harness_id: e.harness_id.clone(),
            status: session_status(e.state),
            project_name: copy_opt(&e.project_name),
            started_at: e.started_at.clone(),
            display_name: e.display_name.clone(),
        }
    }

    /// The session list, in registry order.
    pub fn listing(&self) -> (r: Vec<EnrichedSession>)
        ensures
            r@.map_values(|x: EnrichedSession| x@) == listing(self@),
    {
        let n = self.entries.len();
        let mut out: Vec<EnrichedSession> = Vec::new();
        let mut i: usize = 0;
        while i < n
            invariant
                n == self.entries@.len(),
                self@ == self.entries@.map_values(|e: SessionEntry| e@),
                i <= n,
                out@.len() == i,
                forall|j: int| 0 <= j < i ==> #[trigger] out@[j]@ == enriched_of(self@[j]),
            decreases n - i,
        {
            let row = Self::enriched_row(&self.entries[i]);
            out.push(row);
            i = i + 1;
        }
        assert(out@.map_values(|x: EnrichedSession| x@) =~= listing(self@));
        out
    }

    /// The snapshot rows pushed to a newly connected client, in registry order. They
    /// carry the stored display name, so renames survive reconnects.
    pub fn session_list(&self) -> (r: Vec<SessionSnapshot>)
        ensures
            r@.map_values(|x: SessionSnapshot| x@) == self@.map_values(|e: EntryView| snapshot_of(e)),
    {
        let n = self.entries.len();
        let mut out: Vec<SessionSnapshot> = Vec::new();
        let mut i: usize = 0;
        while i < n
            invariant
                n == self.entries@.len(),
                self@ == self.entries@.map_values(|e: SessionEntry| e@),
                i <= n,
                out@.len() == i,
                forall|j: int| 0 <= j < i ==> #[trigger] out@[j]@ == snapshot_of(self@[j]),
            decreases n - i,
        {
            let e = &self.entries[i];
            out.push(SessionSnapshot {
                session_id: e.session_id.clone(),
                harness_id: e.harness_id.clone(),
                profile_id: e.profile_id.clone(),
                display_name: e.display_name.clone(),
                project_root: e.project_root.clone(),
                cwd: e.cwd.clone(),
                state: e.state,
                started_at: e.started_at.clone(),
                degraded: e.degraded,
                degraded_reason: copy_opt(&e.degraded_reason),
            });
            i = i + 1;
        }
        assert(out@.map_values(|x: SessionSnapshot| x@) =~= self@.map_values(|e: EntryView| snapshot_of(e)));
        out
    }

    /// The broadcasts of a transition of session `id` to `s`.
    fn transition_broadcasts(&self, id: &str, s: SessionState) -> (r: Vec<ServerToClient>)
        ensures
            events_view(r@) == transition_events(id@, s, self@),
    {
        let mut r: Vec<ServerToClient> = Vec::new();
        r.push(ServerToClient::SessionStateChanged { session_id: String::from_str(id), new_state: s });
        r.push(ServerToClient::SessionListUpdate { sessions: self.listing() });
        assert(events_view(r@) =~= transition_events(id@, s, self@));
        r
    }

    /// The broadcast of a metadata change.
    fn list_broadcast(&self) -> (r: Vec<ServerToClient>)
        ensures
            events_view(r@) == list_events(self@),
    {
        let mut r: Vec<ServerToClient> = Vec::new();
        r.push(ServerToClient::SessionListUpdate { sessions: self.listing() });
        assert(events_view(r@) =~= list_events(self@));
        r
    }
}


// ---------------------------------------------------------------------------
// Entry updates
// ---------------------------------------------------------------------------

/// The entry once the kill protocol has started, with its deadline.
pub open spec fn terminating_entry(e: EntryView, ms: u64) -> EntryView {
    EntryView { state: SessionState::Terminating, kill_deadline: Some(ms), ..e }
}

/// The entry once terminated; the deadline no longer applies.
pub open spec fn terminated_entry(e: EntryView) -> EntryView {
    EntryView { state: SessionState::Terminated, kill_deadline: None, ..e }
}

/// The entry once detached: the control connection and proxy are gone.
pub open spec fn detached_entry(e: EntryView) -> EntryView {
    EntryView {
        state: SessionState::Detached,
        has_conn: false,
        has_reader: false,
        has_proxy: false,
        ..e
    }
}

/// The entry once re-attached: a fresh control connection read by a proxy task.
pub open spec fn attached_entry(e: EntryView) -> EntryView {
    EntryView {
        state: SessionState::Running,
        has_conn: true,
        has_reader: false,
        has_proxy: true,
        ..e
    }
}

/// The entry once the post-spawn monitor has connected.
pub open spec fn connected_entry(e: EntryView) -> EntryView {
    EntryView { has_conn: true, has_reader: false, has_proxy: false, ..e }
}

/// Registry facts shared by every update of one entry.
pub(crate) proof fn lemma_replace_at(v: Seq<EntryView>, i: int, e: EntryView)
    requires
        registry_wf(v),
        0 <= i < v.len(),
        e.session_id == v[i].session_id,
        entry_wf(e),
    ensures
        registry_wf(v.update(i, e)),
        has_session(v, v[i].session_id),
        index_of(v, v[i].session_id) == i,
        has_session(v.update(i, e), e.session_id),
        index_of(v.update(i, e), e.session_id) == i,
        replace_session(v, v[i].session_id, e) == v.update(i, e),
{
    let w = v.update(i, e);
    assert(w[i].session_id == e.session_id);
    let k = index_of(v, v[i].session_id);
    assert(v[k].session_id == v[i].session_id);
    let k2 = index_of(w, e.session_id);
    assert(w[k2].session_id == e.session_id);
    assert forall|a: int, b: int|
        0 <= a < w.len() && 0 <= b < w.len() && a != b implies #[trigger] w[a].session_id
        != #[trigger] w[b].session_id by {
        if a != i && b != i {
            assert(w[a] == v[a] && w[b] == v[b]);
        } else if a == i {
            assert(v[b].session_id != v[i].session_id);
        } else {
            assert(v[a].session_id != v[i].session_id);
        }
    }
    assert forall|a: int| 0 <= a < w.len() implies entry_wf(#[trigger] w[a]) by {
        if a != i {
            assert(w[a] == v[a]);
        }
    }
}

/// Appending an entry whose ID is not registered keeps the registry consistent.
pub(crate) proof fn lemma_push_wf(v: Seq<EntryView>, e: EntryView)
    requires
        registry_wf(v),
        !has_session(v, e.session_id),
        entry_wf(e),
    ensures
        registry_wf(v.push(e)),
{
    let w = v.push(e);
    assert forall|a: int, b: int|
        0 <= a < w.len() && 0 <= b < w.len() && a != b implies #[trigger] w[a].session_id
        != #[trigger] w[b].session_id by {
        if a < v.len() && b < v.len() {
            assert(w[a] == v[a] && w[b] == v[b]);
        } else if a == v.len() {
            assert(w[b] == v[b]);
        } else {
            assert(w[a] == v[a]);
        }
    }
    assert forall|a: int| 0 <= a < w.len() implies entry_wf(#[trigger] w[a]) by {
        if a < v.len() {
            assert(w[a] == v[a]);
        }
    }
}

impl SessionTable {
    proof fn lemma_view(&self)
        ensures
            self@.len() == self.entries@.len(),
            forall|i: int| 0 <= i < self@.len() ==> #[trigger] self@[i] == self.entries@[i]@,
    {
    }

    /// Replaces the entry at `i` by one whose view is `e`; writes go field by field.
    fn put_flags(&mut self, i: usize, state: SessionState, has_conn: bool, has_reader: bool, has_proxy: bool)
        requires
            old(self).wf(),
            i < old(self)@.len(),
            (has_reader || has_proxy) ==> has_conn,
        ensures
            final(self)@ == old(self)@.update(
                i as int,
                EntryView { state, has_conn, has_reader, has_proxy, ..old(self)@[i as int] },
            ),
            final(self).wf(),
    {
        let ghost e = EntryView { state, has_conn, has_reader, has_proxy, ..old(self)@[i as int] };
        proof {
            lemma_replace_at(self@, i as int, e);
        }
        self.entries[i].state = state;
        self.entries[i].has_conn = has_conn;
        self.entries[i].has_reader = has_reader;
        self.entries[i].has_proxy = has_proxy;
        assert(self@ =~= old(self)@.update(i as int, e));
    }
}


/// What a registry operation asks the daemon to do besides the in-memory change.
#[derive(Debug)]
pub struct TableChange {
    /// Broadcasts, to be sent in order while the registry is still held.
    pub events: Vec<ServerToClient>,
    /// In-place update of the sidecar file, if one is due.
    pub sidecar: Option<SidecarPatch>,
    /// Socket path of a session whose 10-second garbage collection is to start.
    pub gc_socket: Option<String>,
    /// The session's PTY proxy task is to be aborted.
    pub abort_proxy: bool,
    /// The sidecar file is to be deleted at once.
    pub remove_sidecar: bool,
}

/// The entry once marked degraded.
pub open spec fn degraded_entry(e: EntryView, reason: Seq<char>) -> EntryView {
    EntryView { degraded: true, degraded_reason: Some(reason), ..e }
}

/// The entry under a new display name.
pub open spec fn renamed_entry(e: EntryView, name: Seq<char>) -> EntryView {
    EntryView { display_name: name, ..e }
}

/// The optional patch has this value.
pub open spec fn patch_is(p: Option<SidecarPatch>, v: PatchView) -> bool {
    p matches Some(q) && q@ == v
}

impl SessionTable {
    fn no_change() -> (r: TableChange)
        ensures
            r.events@.len() == 0,
            r.sidecar is None,
            r.gc_socket is None,
            !r.abort_proxy,
            !r.remove_sidecar,
    {
        TableChange { events: Vec::new(), sidecar: None, gc_socket: None, abort_proxy: false, remove_sidecar: false }
    }

    /// Starts the kill protocol for a session: it becomes `Terminating` with the
    /// given deadline, and the state change is announced before the list.
    pub fn begin_terminating(&mut self, id: &str, kill_deadline_ms: u64) -> (r: TableChange)
        requires
            old(self).wf(),
        ensures
            final(self).wf(),
            final(self)@ == (match lookup(old(self)@, id@) {
                Some(e) => replace_session(old(self)@, id@, terminating_entry(e, kill_deadline_ms)),
                None => old(self)@,
            }),
            events_view(r.events@) == transition_events(id@, SessionState::Terminating, final(self)@),
            patch_is(r.sidecar, terminating_patch(kill_deadline_ms)),
            r.gc_socket is None,
            !r.abort_proxy,
            !r.remove_sidecar,
    {
        match self.find(id) {
            Some(i) => {
                let ghost e2 = terminating_entry(self@[i as int], kill_deadline_ms);
                proof {
                    lemma_replace_at(self@, i as int, e2);
                }
                self.entries[i].state = SessionState::Terminating;
                self.entries[i].kill_deadline_unix_ms = Some(kill_deadline_ms);
                assert(self@ =~= old(self)@.update(i as int, e2));
            },
            None => {},
        }
        let events = self.transition_broadcasts(id, SessionState::Terminating);
        TableChange {
            events,
            sidecar: Some(make_terminating_patch(kill_deadline_ms)),
            gc_socket: None,
            abort_proxy: false,
            remove_sidecar: false,
        }
    }

    /// Sets the entry at `i` to `Terminated` and clears its deadline.
    fn set_terminated(&mut self, i: usize)
        requires
            old(self).wf(),
            i < old(self)@.len(),
        ensures
            final(self).wf(),
            final(self)@ == old(self)@.update(i as int, terminated_entry(old(self)@[i as int])),
    {
        let ghost e2 = terminated_entry(self@[i as int]);
        proof {
            lemma_replace_at(self@, i as int, e2);
        }
        self.entries[i].state = SessionState::Terminated;
        self.entries[i].kill_deadline_unix_ms = None;
        assert(self@ =~= old(self)@.update(i as int, e2));
    }

    /// Marks a session `Terminated` after a failed or confirmed kill, announcing the
    /// change before the list, rewriting the sidecar and starting garbage
    /// collection. A session already `Terminated` is left alone and nothing is
    /// announced twice. For an unknown ID the transition is still announced (with
    /// the list unchanged) and the sidecar still rewritten, but no collection starts.
    pub fn terminate(&mut self, id: &str) -> (r: TableChange)
        requires
            old(self).wf(),
        ensures
            final(self).wf(),
            !r.abort_proxy,
            !r.remove_sidecar,
            match lookup(old(self)@, id@) {
                Some(e) => if e.state == SessionState::Terminated {
                    &&& final(self)@ == old(self)@
                    &&& r.events@.len() == 0
                    &&& r.sidecar is None
                    &&& r.gc_socket is None
                } else {
                    &&& final(self)@ == replace_session(old(self)@, id@, terminated_entry(e))
                    &&& events_view(r.events@) == transition_events(id@, SessionState::Terminated, final(self)@)
                    &&& patch_is(r.sidecar, terminated_patch())
                    &&& opt_text(r.gc_socket) == Some(e.socket)
                },
                None => {
                    &&& final(self)@ == old(self)@
                    &&& events_view(r.events@) == transition_events(id@, SessionState::Terminated, old(self)@)
                    &&& patch_is(r.sidecar, terminated_patch())
                    &&& r.gc_socket is None
                },
            },
    {
        match self.find(id) {
            Some(i) => {
                proof {
                    self.lemma_view();
                }
                if self.entries[i].state == SessionState::Terminated {
                    return Self::no_change();
                }
                self.set_terminated(i);
                proof {
                    self.lemma_view();
                }
                let socket = self.entries[i].session_host_socket.clone();
                assert(socket@ == self@[i as int].socket);
                assert(socket@ == old(self)@[i as int].socket);
                let events = self.transition_broadcasts(id, SessionState::Terminated);
                TableChange {
                    events,
                    sidecar: Some(make_terminated_patch()),
                    gc_socket: Some(socket),
                    abort_proxy: false,
                    remove_sidecar: false,
                }
            },
            None => {
                let events = self.transition_broadcasts(id, SessionState::Terminated);
                TableChange { events, sidecar: Some(make_terminated_patch()), gc_socket: None, abort_proxy: false, remove_sidecar: false }
            },
        }
    }

    /// Marks a session `Terminated` on a confirmation read from the session-host
    /// (or its goodbye, or a failed attach). Unknown and already terminated sessions
    /// are left alone and nothing is announced.
    pub fn terminate_if_present(&mut self, id: &str) -> (r: TableChange)
        requires
            old(self).wf(),
        ensures
            final(self).wf(),
            !r.abort_proxy,
            !r.remove_sidecar,
            match lookup(old(self)@, id@) {
                Some(e) => if e.state == SessionState::Terminated {
                    &&& final(self)@ == old(self)@
                    &&& r.events@.len() == 0
                    &&& r.sidecar is None
                    &&& r.gc_socket is None
                } else {
                    &&& final(self)@ == replace_session(old(self)@, id@, terminated_entry(e))
                    &&& events_view(r.events@) == transition_events(id@, SessionState::Terminated, final(self)@)
                    &&& patch_is(r.sidecar, terminated_patch())
                    &&& opt_text(r.gc_socket) == Some(e.socket)
                },
                None => {
                    &&& final(self)@ == old(self)@
                    &&& r.events@.len() == 0
                    &&& r.sidecar is None
                    &&& r.gc_socket is None
                },
            },
    {
        match self.find(id) {
            Some(i) => {
                proof {
                    self.lemma_view();
                }
                if self.entries[i].state == SessionState::Terminated {
                    return Self::no_change();
                }
                self.set_terminated(i);
                proof {
                    self.lemma_view();
                }
                let socket = self.entries[i].session_host_socket.clone();
                assert(socket@ == self@[i as int].socket);
                assert(socket@ == old(self)@[i as int].socket);
                let events = self.transition_broadcasts(id, SessionState::Terminated);
                TableChange {
                    events,
                    sidecar: Some(make_terminated_patch()),
                    gc_socket: Some(socket),
                    abort_proxy: false,
                    remove_sidecar: false,
                }
            },
            None => Self::no_change(),
        }
    }

    /// Whether the kill watchdog, on firing, must SIGKILL the session-host: only
    /// while the session is still registered and not yet `Terminated`.
    pub fn watchdog_must_kill(&self, id: &str) -> (r: bool)
        requires
            self.wf(),
        ensures
            r == (match lookup(self@, id@) {
                Some(e) => e.state != SessionState::Terminated,
                None => false,
            }),
    {
        match self.find(id) {
            Some(i) => {
                proof {
                    self.lemma_view();
                }
                self.entries[i].state != SessionState::Terminated
            },
            None => false,
        }
    }

    /// The watchdog's forced termination after its SIGKILL. A session that reached
    /// `Terminated` meanwhile is left alone; otherwise the transition is announced,
    /// the sidecar rewritten, and collection of `socket_path` started.
    pub fn watchdog_finish(&mut self, id: &str, socket_path: String) -> (r: TableChange)
        requires
            old(self).wf(),
        ensures
            final(self).wf(),
            !r.abort_proxy,
            !r.remove_sidecar,
            match lookup(old(self)@, id@) {
                Some(e) => if e.state == SessionState::Terminated {
                    &&& final(self)@ == old(self)@
                    &&& r.events@.len() == 0
                    &&& r.sidecar is None
                    &&& r.gc_socket is None
                } else {
                    &&& final(self)@ == replace_session(old(self)@, id@, terminated_entry(e))
                    &&& events_view(r.events@) == transition_events(id@, SessionState::Terminated, final(self)@)
                    &&& patch_is(r.sidecar, terminated_patch())
                    &&& opt_text(r.gc_socket) == Some(socket_path@)
                },
                None => {
                    &&& final(self)@ == old(self)@
                    &&& events_view(r.events@) == transition_events(id@, SessionState::Terminated, old(self)@)
                    &&& patch_is(r.sidecar, terminated_patch())
                    &&& opt_text(r.gc_socket) == Some(socket_path@)
                },
            },
    {
        match self.find(id) {
            Some(i) => {
                proof {
                    self.lemma_view();
                }
                if self.entries[i].state == SessionState::Terminated {
                    return Self::no_change();
                }
                self.set_terminated(i);
            },
            None => {},
        }
        let events = self.transition_broadcasts(id, SessionState::Terminated);
        TableChange {
            events,
            sidecar: Some(make_terminated_patch()),
            gc_socket: Some(socket_path),
            abort_proxy: false,
            remove_sidecar: false,
        }
    }

    /// Garbage collection after the grace period: a session still `Terminated` is
    /// removed and the shorter list announced (no state change is announced). Any
    /// other session, or an unknown ID, is left alone.
    pub fn collect_terminated(&mut self, id: &str) -> (r: Option<Vec<ServerToClient>>)
        requires
            old(self).wf(),
        ensures
            final(self).wf(),
            match lookup(old(self)@, id@) {
                Some(e) => if e.state == SessionState::Terminated {
                    &&& final(self)@ == old(self)@.remove(index_of(old(self)@, id@))
                    &&& !has_session(final(self)@, id@)
                    &&& r matches Some(ev) && events_view(ev@) == list_events(final(self)@)
                } else {
                    final(self)@ == old(self)@ && r is None
                },
                None => final(self)@ == old(self)@ && r is None,
            },
    {
        match self.find(id) {
            Some(i) => {
                proof {
                    self.lemma_view();
                }
                if self.entries[i].state != SessionState::Terminated {
                    return None;
                }
                let ghost v = self@;
                let _removed = self.entries.remove(i);
                assert(self@ =~= v.remove(i as int));
                proof {
                    let w = self@;
                    assert forall|a: int, b: int|
                        0 <= a < w.len() && 0 <= b < w.len() && a != b implies #[trigger] w[a].session_id
                        != #[trigger] w[b].session_id by {
                        let a2 = if a < i { a } else { a + 1 };
                        let b2 = if b < i { b } else { b + 1 };
                        assert(w[a] == v[a2] && w[b] == v[b2]);
                    }
                    assert forall|a: int| 0 <= a < w.len() implies entry_wf(#[trigger] w[a]) by {
                        let a2 = if a < i { a } else { a + 1 };
                        assert(w[a] == v[a2]);
                    }
                    if has_session(w, id@) {
                        let k = choose|k: int| 0 <= k < w.len() && #[trigger] w[k].session_id == id@;
                        let k2 = if k < i { k } else { k + 1 };
                        assert(w[k] == v[k2]);
                        assert(v[i as int].session_id == id@);
                    }
                }
                Some(self.list_broadcast())
            },
            None => None,
        }
    }
}


/// How a kill reaches the session-host.
#[derive(Debug)]
pub enum KillPlan {
    /// The kill is already under way or done: nothing to do.
    Idempotent,
    /// Send Kill over the established control connection.
    ExistingConn { pid: u32, socket_path: String },
    /// Launching without a control connection yet: SIGTERM the session-host.
    PidFallback { pid: u32, socket_path: String },
    /// Detached (or running without a connection): connect afresh, check the peer,
    /// then send Kill.
    FreshConnect { pid: u32, socket_path: String },
}

/// The kill plan fits the entry: the route its state and connection call for, and
/// the entry's PID and socket.
pub open spec fn kill_plan_fits(p: KillPlan, e: EntryView) -> bool {
    match p {
        KillPlan::Idempotent => is_terminal(e.state),
        KillPlan::ExistingConn { pid, socket_path } => {
            &&& (e.state == SessionState::Running || e.state == SessionState::Launching)
            &&& e.has_conn
            &&& pid == e.pid && socket_path@ == e.socket
        },
        KillPlan::PidFallback { pid, socket_path } => {
            &&& e.state == SessionState::Launching && !e.has_conn
            &&& pid == e.pid && socket_path@ == e.socket
        },
        KillPlan::FreshConnect { pid, socket_path } => {
            &&& (e.state == SessionState::Detached || (e.state == SessionState::Running && !e.has_conn))
            &&& pid == e.pid && socket_path@ == e.socket
        },
    }
}

/// The error for an identifier that is not a registered UUID.
pub open spec fn not_found_error(r: SessionError, id: Seq<char>) -> bool {
    r matches SessionError::SessionNotFound { session_id } && session_id@ == id
}

/// What a detach has to do.
#[derive(Debug, Clone, Copy, PartialEq, Eq, Structural)]
pub enum DetachPlan {
    /// Already detached, terminating or terminated: succeed without doing anything.
    AlreadyDone,
    /// Send Detach over the control connection, then commit the detach.
    SendDetach,
}

/// What an attach has to do.
#[derive(Debug)]
pub enum AttachPlan {
    /// Already attached: succeed without doing anything.
    AlreadyAttached,
    /// Run the attach protocol against the detached session-host.
    Reattach { pid: u32, socket_path: String },
}

impl SessionTable {
    fn not_found(id: &str) -> (e: SessionError)
        ensures
            not_found_error(e, id@),
    {
        SessionError::SessionNotFound { session_id: String::from_str(id) }
    }

    /// Chooses how to kill a session. An identifier that is not a UUID, or not
    /// registered, is `SessionNotFound`.
    pub fn kill_plan(&self, id: &str) -> (r: Result<KillPlan, SessionError>)
        requires
            self.wf(),
        ensures
            match lookup(self@, id@) {
                Some(e) if uuid_text(id@) => r matches Ok(p) && kill_plan_fits(p, e),
                _ => r matches Err(err) && not_found_error(err, id@),
            },
    {
        if !is_valid_session_id(id) {
            return Err(Self::not_found(id));
        }
        match self.find(id) {
            None => Err(Self::not_found(id)),
            Some(i) => {
                proof {
                    self.lemma_view();
                }
                let e = &self.entries[i];
                match e.state {
                    SessionState::Terminating | SessionState::Terminated => Ok(KillPlan::Idempotent),
                    SessionState::Running if e.has_conn => Ok(
                        KillPlan::ExistingConn { pid: e.session_host_pid, socket_path: e.session_host_socket.clone() },
                    ),
                    SessionState::Launching if e.has_conn => Ok(
                        KillPlan::ExistingConn { pid: e.session_host_pid, socket_path: e.session_host_socket.clone() },
                    ),
                    SessionState::Launching => Ok(
                        KillPlan::PidFallback { pid: e.session_host_pid, socket_path: e.session_host_socket.clone() },
                    ),
                    _ => Ok(
                        KillPlan::FreshConnect { pid: e.session_host_pid, socket_path: e.session_host_socket.clone() },
                    ),
                }
            },
        }
    }

    /// Chooses what a detach does. An identifier that is not a UUID, or not
    /// registered, is `SessionNotFound`; a live session without a control
    /// connection is `SessionNotReady`.
    pub fn detach_plan(&self, id: &str) -> (r: Result<DetachPlan, SessionError>)
        requires
            self.wf(),
        ensures
            match lookup(self@, id@) {
                Some(e) if uuid_text(id@) => if e.state == SessionState::Detached || is_terminal(e.state) {
                    r == Ok::<DetachPlan, SessionError>(DetachPlan::AlreadyDone)
                } else if e.has_conn {
                    r == Ok::<DetachPlan, SessionError>(DetachPlan::SendDetach)
                } else {
                    r matches Err(SessionError::SessionNotReady { session_id }) && session_id@ == id@
                },
                _ => r matches Err(err) && not_found_error(err, id@),
            },
    {
        if !is_valid_session_id(id) {
            return Err(Self::not_found(id));
        }
        match self.find(id) {
            None => Err(Self::not_found(id)),
            Some(i) => {
                proof {
                    self.lemma_view();
                }
                let e = &self.entries[i];
                match e.state {
                    SessionState::Detached | SessionState::Terminating | SessionState::Terminated => Ok(
                        DetachPlan::AlreadyDone,
                    ),
                    _ => if e.has_conn {
                        Ok(DetachPlan::SendDetach)
                    } else {
                        Err(SessionError::SessionNotReady { session_id: String::from_str(id) })
                    },
                }
            },
        }
    }

    /// Chooses what an attach does. An identifier that is not a UUID, or not
    /// registered, is `SessionNotFound`; any state but `Running` and `Detached` is
    /// `SessionHostDead`.
    pub fn attach_plan(&self, id: &str) -> (r: Result<AttachPlan, SessionError>)
        requires
            self.wf(),
        ensures
            match lookup(self@, id@) {
                Some(e) if uuid_text(id@) => if e.state == SessionState::Running {
                    r matches Ok(AttachPlan::AlreadyAttached)
                } else if e.state == SessionState::Detached {
                    r matches Ok(AttachPlan::Reattach { pid, socket_path }) && pid == e.pid && socket_path@ == e.socket
                } else {
                    r matches Err(SessionError::SessionHostDead { session_id }) && session_id@ == id@
                },
                _ => r matches Err(err) && not_found_error(err, id@),
            },
    {
        if !is_valid_session_id(id) {
            return Err(Self::not_found(id));
        }
        match self.find(id) {
            None => Err(Self::not_found(id)),
            Some(i) => {
                proof {
                    self.lemma_view();
                }
                let e = &self.entries[i];
                match e.state {
                    SessionState::Running => Ok(AttachPlan::AlreadyAttached),
                    SessionState::Detached => Ok(
                        AttachPlan::Reattach { pid: e.session_host_pid, socket_path: e.session_host_socket.clone() },
                    ),
                    _ => Err(SessionError::SessionHostDead { session_id: String::from_str(id) }),
                }
            },
        }
    }

    /// Commits a detach after Detach was sent. The proxy task is taken for abortion
    /// in any case. If the session reached `Terminating` or `Terminated`
    /// meanwhile, that transition stands and nothing is announced; otherwise the
    /// session becomes `Detached` without a control connection, announced before the
    /// list. The sidecar is rewritten to `Detached` in every case: the terminal
    /// transition stands in the registry and in its broadcasts, while the record on
    /// disk follows the detach that was sent.
    pub fn commit_detach(&mut self, id: &str) -> (r: TableChange)
        requires
            old(self).wf(),
        ensures
            final(self).wf(),
            patch_is(r.sidecar, detached_patch()),
            r.gc_socket is None,
            !r.remove_sidecar,
            match lookup(old(self)@, id@) {
                Some(e) => if is_terminal(e.state) {
                    &&& final(self)@ == replace_session(old(self)@, id@, EntryView { has_proxy: false, ..e })
                    &&& r.events@.len() == 0
                    &&& r.abort_proxy == e.has_proxy
                } else {
                    &&& final(self)@ == replace_session(old(self)@, id@, detached_entry(e))
                    &&& events_view(r.events@) == transition_events(id@, SessionState::Detached, final(self)@)
                    &&& r.abort_proxy == e.has_proxy
                },
                None => {
                    &&& final(self)@ == old(self)@
                    &&& events_view(r.events@) == transition_events(id@, SessionState::Detached, old(self)@)
                    &&& !r.abort_proxy
                },
            },
    {
        match self.find(id) {
            Some(i) => {
                proof {
                    self.lemma_view();
                }
                let had_proxy = self.entries[i].has_proxy;
                let state = self.entries[i].state;
                let has_conn = self.entries[i].has_conn;
                let has_reader = self.entries[i].has_reader;
                if state == SessionState::Terminating || state == SessionState::Terminated {
                    self.put_flags(i, state, has_conn, has_reader, false);
                    assert(self@ =~= replace_session(old(self)@, id@, EntryView { has_proxy: false, ..old(self)@[i as int] }));
                    TableChange {
                        events: Vec::new(),
                        sidecar: Some(make_detached_patch()),
                        gc_socket: None,
                        abort_proxy: had_proxy,
                        remove_sidecar: false,
                    }
                } else {
                    self.put_flags(i, SessionState::Detached, false, false, false);
                    assert(self@ =~= replace_session(old(self)@, id@, detached_entry(old(self)@[i as int])));
                    let events = self.transition_broadcasts(id, SessionState::Detached);
                    TableChange {
                        events,
                        sidecar: Some(make_detached_patch()),
                        gc_socket: None,
                        abort_proxy: had_proxy,
                        remove_sidecar: false,
                    }
                }
            },
            None => {
                let events = self.transition_broadcasts(id, SessionState::Detached);
                TableChange { events, sidecar: Some(make_detached_patch()), gc_socket: None, abort_proxy: false, remove_sidecar: false }
            },
        }
    }

    /// Commits a successful attach: the session is `Running` with a fresh control
    /// connection read by a proxy task, announced before the list.
    pub fn commit_attach(&mut self, id: &str) -> (r: TableChange)
        requires
            old(self).wf(),
        ensures
            final(self).wf(),
            final(self)@ == (match lookup(old(self)@, id@) {
                Some(e) => replace_session(old(self)@, id@, attached_entry(e)),
                None => old(self)@,
            }),
            events_view(r.events@) == transition_events(id@, SessionState::Running, final(self)@),
            r.sidecar is None,
            r.gc_socket is None,
            !r.abort_proxy,
            !r.remove_sidecar,
    {
        match self.find(id) {
            Some(i) => {
                self.put_flags(i, SessionState::Running, true, false, true);
                assert(self@ =~= replace_session(old(self)@, id@, attached_entry(old(self)@[i as int])));
            },
            None => {},
        }
        let events = self.transition_broadcasts(id, SessionState::Running);
        TableChange { events, sidecar: None, gc_socket: None, abort_proxy: false, remove_sidecar: false }
    }

    /// Takes the parked read half of a session's control connection, if any, so
    /// that kill confirmation can read from it; reports whether there was one.
    pub fn take_reader(&mut self, id: &str) -> (r: bool)
        requires
            old(self).wf(),
        ensures
            final(self).wf(),
            match lookup(old(self)@, id@) {
                Some(e) => r == e.has_reader && final(self)@ == replace_session(
                    old(self)@,
                    id@,
                    EntryView { has_reader: false, ..e },
                ),
                None => !r && final(self)@ == old(self)@,
            },
    {
        match self.find(id) {
            Some(i) => {
                proof {
                    self.lemma_view();
                }
                let had = self.entries[i].has_reader;
                let state = self.entries[i].state;
                let has_conn = self.entries[i].has_conn;
                let has_proxy = self.entries[i].has_proxy;
                self.put_flags(i, state, has_conn, false, has_proxy);
                assert(self@ =~= replace_session(old(self)@, id@, EntryView { has_reader: false, ..old(self)@[i as int] }));
                had
            },
            None => false,
        }
    }

    /// Whether a session has a running PTY proxy task (which then delivers the
    /// kill confirmation itself).
    pub fn has_proxy_task(&self, id: &str) -> (r: bool)
        requires
            self.wf(),
        ensures
            r == (match lookup(self@, id@) {
                Some(e) => e.has_proxy,
                None => false,
            }),
    {
        match self.find(id) {
            Some(i) => {
                proof {
                    self.lemma_view();
                }
                self.entries[i].has_proxy
            },
            None => false,
        }
    }
}


// ---------------------------------------------------------------------------
// Spawning and registration
// ---------------------------------------------------------------------------

/// What the daemon is asked to spawn.
#[derive(Debug)]
pub struct SpawnOptions {
    /// Identifier proposed for the new session (a UUID generated by the daemon).
    pub session_id: String,
    /// Project root chosen by the user.
    pub project_root: String,
    /// Working directory of the harness child.
    pub worktree_root: String,
    pub harness_id: String,
    pub profile_id: String,
    /// Hook settings file handed to the engine module.
    pub hooks_settings_path: String,
}

/// A validated spawn, ready for the OS process to be started.
#[derive(Debug)]
pub struct SpawnPlan {
    pub session_id: String,
    /// File name of the sidecar inside the runtime directory.
    pub sidecar_file: String,
    pub display_name: String,
    pub project_root: String,
    pub cwd: String,
    pub harness_id: String,
    pub profile_id: String,
    /// Start time, RFC 3339.
    pub started_at: String,
}

/// The plan carries the spawn request's fields, its sidecar name and its default
/// display name.
pub open spec fn plan_fits(p: SpawnPlan, o: SpawnOptions) -> bool {
    &&& p.session_id@ == o.session_id@
    &&& p.sidecar_file@ == sidecar_file_name_of(o.session_id@)
    &&& p.display_name@ == default_display_name_of(o.harness_id@, o.project_root@)
    &&& p.project_root@ == o.project_root@
    &&& p.cwd@ == o.worktree_root@
    &&& p.harness_id@ == o.harness_id@
    &&& p.profile_id@ == o.profile_id@
}

/// The entry a committed spawn registers: `Launching`, without a control
/// connection, not degraded.
pub open spec fn launching_entry(p: SpawnPlan, pid: u32, socket: Seq<char>) -> EntryView {
    EntryView {
        session_id: p.session_id@,
        pid,
        socket,
        state: SessionState::Launching,
        cwd: p.cwd@,
        project_root: p.project_root@,
        project_name: path_file_name(p.project_root@),
        harness_id: p.harness_id@,
        profile_id: p.profile_id@,
        started_at: p.started_at@,
        display_name: p.display_name@,
        kill_deadline: None,
        degraded: false,
        degraded_reason: None,
        has_conn: false,
        has_reader: false,
        has_proxy: false,
    }
}

/// The sidecar written right after the session-host is spawned.
pub open spec fn launching_sidecar_of(p: SpawnPlan, pid: u32, socket: Seq<char>) -> SidecarView {
    SidecarView {
        schema_version: 3,
        session_id: p.session_id@,
        pid,
        socket_path: socket,
        child_pid: None,
        state: SessionState::Launching,
        project_root: p.project_root@,
        cwd: p.cwd@,
        harness_id: p.harness_id@,
        profile_id: p.profile_id@,
        started_at: p.started_at@,
        display_name: p.display_name@,
        pty_rows: 24,
        pty_cols: 80,
        kill_deadline_unix_ms: None,
    }
}

/// The outline of an RFC 3339 UTC time as chrono writes it: at least
/// `YYYY-MM-DDTHH:MM:SS` (19 characters) followed by the offset `+00:00`.
pub open spec fn utc_rfc3339_outline(s: Seq<char>) -> bool {
    &&& s.len() >= 25
    &&& s.subrange(s.len() - 6, s.len() as int) == "+00:00"@
}

/// The current time, RFC 3339, from `chrono::Utc::now`.
///
/// Claimed of chrono: `to_rfc3339` writes the date, `T`, the time (with a
/// fraction of 3, 6 or 9 digits when the nanoseconds are not zero), then the
/// offset, which for UTC is `+00:00`. Which time it is, is the clock's.
#[verifier::external_body]
fn utc_now_rfc3339() -> (s: String)
    ensures
        utc_rfc3339_outline(s@),
{
    chrono::Utc::now().to_rfc3339()
}

impl SpawnPlan {
    /// The sidecar record of the spawned session-host.
    pub fn launching_sidecar(&self, pid: u32, socket_path: &str) -> (r: SessionSidecar)
        ensures
            r@ == launching_sidecar_of(*self, pid, socket_path@),
    {
        SessionSidecar {
            schema_version: SIDECAR_SCHEMA_VERSION,
            session_id: self.session_id.clone(),
            pid,
            socket_path: String::from_str(socket_path),
            child_pid: None,
            state: SessionState::Launching,
            project_root: self.project_root.clone(),
            cwd: self.cwd.clone(),
            harness_id: self.harness_id.clone(),
            profile_id: self.profile_id.clone(),
            started_at: self.started_at.clone(),
            display_name: self.display_name.clone(),
            pty_rows: DEFAULT_PTY_ROWS,
            pty_cols: DEFAULT_PTY_COLS,
            kill_deadline_unix_ms: None,
        }
    }
}

/// A session to register directly, as the registry fixtures and re-discovery do.
#[derive(Debug)]
pub struct Registration {
    pub session_id: String,
    pub session_host_pid: u32,
    pub session_host_socket: String,
    pub state: SessionState,
    pub cwd: String,
    pub project_root: String,
    pub harness_id: String,
    pub profile_id: String,
    pub started_at: String,
    pub display_name: String,
    pub kill_deadline_unix_ms: Option<u64>,
    /// A control connection (without a parked reader or proxy) exists.
    pub has_conn: bool,
}

/// The entry a registration stores.
pub open spec fn registered_entry(g: Registration) -> EntryView {
    EntryView {
        session_id: g.session_id@,
        pid: g.session_host_pid,
        socket: g.session_host_socket@,
        state: g.state,
        cwd: g.cwd@,
        project_root: g.project_root@,
        project_name: path_file_name(g.project_root@),
        harness_id: g.harness_id@,
        profile_id: g.profile_id@,
        started_at: g.started_at@,
        display_name: g.display_name@,
        kill_deadline: g.kill_deadline_unix_ms,
        degraded: false,
        degraded_reason: None,
        has_conn: g.has_conn,
        has_reader: false,
        has_proxy: false,
    }
}

impl SessionTable {
    /// Validates a spawn request before any process is started: the proposed ID
    /// must be a UUID (`SpawnFailed` otherwise, before any path is built from it)
    /// and must not be registered (`SessionIdCollision`; the caller retries with a
    /// fresh ID). The plan carries the default display name and the start time.
    pub fn prepare_spawn(&self, opts: &SpawnOptions) -> (r: Result<SpawnPlan, SessionError>)
        requires
            self.wf(),
        ensures
            !uuid_text(opts.session_id@) ==> (r matches Err(SessionError::SpawnFailed { reason })
                && reason@ == invalid_id_reason(opts.session_id@)),
            uuid_text(opts.session_id@) && has_session(self@, opts.session_id@) ==> (r matches Err(
                SessionError::SessionIdCollision { session_id },
            ) && session_id@ == opts.session_id@),
            uuid_text(opts.session_id@) && !has_session(self@, opts.session_id@) ==> (r matches Ok(p)
                && plan_fits(p, *opts) && utc_rfc3339_outline(p.started_at@)),
    {
        let id = opts.session_id.as_str();
        if !is_valid_session_id(id) {
            return Err(SessionError::SpawnFailed { reason: invalid_id_message(id) });
        }
        if self.contains(id) {
            return Err(SessionError::SessionIdCollision { session_id: opts.session_id.clone() });
        }
        Ok(SpawnPlan {
            session_id: opts.session_id.clone(),
            sidecar_file: sidecar_file_name(id),
            display_name: default_display_name(opts.harness_id.as_str(), opts.project_root.as_str()),
            project_root: opts.project_root.clone(),
            cwd: opts.worktree_root.clone(),
            harness_id: opts.harness_id.clone(),
            profile_id: opts.profile_id.clone(),
            started_at: utc_now_rfc3339(),
        })
    }

    /// Registers a spawned session as `Launching` and announces it, state change
    /// before list. The ID is checked again in the same step: if another spawn
    /// registered it meanwhile, nothing changes and `SessionIdCollision` is
    /// returned (the caller then kills the orphaned process and removes its sidecar).
    pub fn commit_spawn(&mut self, plan: &SpawnPlan, pid: u32, socket_path: &str) -> (r: Result<TableChange, SessionError>)
        requires
            old(self).wf(),
        ensures
            final(self).wf(),
            has_session(old(self)@, plan.session_id@) ==> {
                &&& final(self)@ == old(self)@
                &&& r matches Err(SessionError::SessionIdCollision { session_id }) && session_id@ == plan.session_id@
            },
            !has_session(old(self)@, plan.session_id@) ==> {
                &&& final(self)@ == old(self)@.push(launching_entry(*plan, pid, socket_path@))
                &&& r matches Ok(c) && events_view(c.events@) == transition_events(
                    plan.session_id@,
                    SessionState::Launching,
                    final(self)@,
                ) && c.sidecar is None && c.gc_socket is None && !c.abort_proxy && !c.remove_sidecar
            },
    {
        if self.contains(plan.session_id.as_str()) {
            return Err(SessionError::SessionIdCollision { session_id: plan.session_id.clone() });
        }
        let entry = SessionEntry {
            session_id: plan.session_id.clone(),
            session_host_pid: pid,
            session_host_socket: String::from_str(socket_path),
            state: SessionState::Launching,
            cwd: plan.cwd.clone(),
            project_root: plan.project_root.clone(),
            project_name: project_basename(plan.project_root.as_str()),
            harness_id: plan.harness_id.clone(),
            profile_id: plan.profile_id.clone(),
            started_at: plan.started_at.clone(),
            display_name: plan.display_name.clone(),
            kill_deadline_unix_ms: None,
            degraded: false,
            degraded_reason: None,
            has_conn: false,
            has_reader: false,
            has_proxy: false,
        };
        assert(entry@ == launching_entry(*plan, pid, socket_path@));
        self.push_new(entry);
        let events = self.transition_broadcasts(plan.session_id.as_str(), SessionState::Launching);
        Ok(TableChange { events, sidecar: None, gc_socket: None, abort_proxy: false, remove_sidecar: false })
    }

    /// Appends an entry whose ID is not registered yet.
    fn push_new(&mut self, entry: SessionEntry)
        requires
            old(self).wf(),
            !has_session(old(self)@, entry@.session_id),
            entry_wf(entry@),
        ensures
            final(self).wf(),
            final(self)@ == old(self)@.push(entry@),
    {
        let ghost v = self@;
        let ghost ev = entry@;
        self.entries.push(entry);
        assert(self@ =~= v.push(ev));
        proof {
            lemma_push_wf(v, ev);
        }
    }

    /// Registers a session directly, replacing any entry with the same ID.
    pub fn register(&mut self, reg: Registration)
        requires
            old(self).wf(),
        ensures
            final(self).wf(),
            final(self)@ == (if has_session(old(self)@, reg.session_id@) {
                old(self)@.update(index_of(old(self)@, reg.session_id@), registered_entry(reg))
            } else {
                old(self)@.push(registered_entry(reg))
            }),
    {
        let ghost g = registered_entry(reg);
        let found = self.find(reg.session_id.as_str());
        let project_name = project_basename(reg.project_root.as_str());
        let entry = SessionEntry {
            session_id: reg.session_id,
            session_host_pid: reg.session_host_pid,
            session_host_socket: reg.session_host_socket,
            state: reg.state,
            cwd: reg.cwd,
            project_root: reg.project_root,
            project_name,
            harness_id: reg.harness_id,
            profile_id: reg.profile_id,
            started_at: reg.started_at,
            display_name: reg.display_name,
            kill_deadline_unix_ms: reg.kill_deadline_unix_ms,
            degraded: false,
            degraded_reason: None,
            has_conn: reg.has_conn,
            has_reader: false,
            has_proxy: false,
        };
        assert(entry@ == g);
        match found {
            Some(i) => {
                proof {
                    lemma_replace_at(self@, i as int, g);
                }
                let ghost v = self@;
                self.entries.set(i, entry);
                assert(self@ =~= v.update(i as int, g));
            },
            None => {
                self.push_new(entry);
            },
        }
    }
}


// ---------------------------------------------------------------------------
// Post-spawn monitor and rename
// ---------------------------------------------------------------------------

/// The sidecar re-written when a session reaches `Running`: the daemon-owned
/// fields as the registry holds them (including any rename made while launching)
/// and the harness child's PID as the session-host recorded it.
pub open spec fn running_sidecar_of(e: EntryView, socket: Seq<char>, child_pid: Option<u32>) -> SidecarView {
    SidecarView {
        schema_version: 3,
        session_id: e.session_id,
        pid: e.pid,
        socket_path: socket,
        child_pid,
        state: SessionState::Running,
        project_root: e.project_root,
        cwd: e.cwd,
        harness_id: e.harness_id,
        profile_id: e.profile_id,
        started_at: e.started_at,
        display_name: e.display_name,
        pty_rows: 24,
        pty_cols: 80,
        kill_deadline_unix_ms: None,
    }
}

/// A session's transition to `Running` seen by the post-spawn monitor.
#[derive(Debug)]
pub struct RunningTransition {
    /// Broadcasts, state change before list.
    pub change: TableChange,
    /// The sidecar to persist, still without the child PID (filled in from the
    /// file the session-host wrote).
    pub sidecar: SessionSidecar,
}

/// A rename that was applied in memory and still has to reach the sidecar.
#[derive(Debug)]
pub struct Rename {
    /// The list broadcast and the sidecar update; sent only once the sidecar holds
    /// the new name.
    pub change: TableChange,
    /// The name before the rename, to restore if the sidecar write fails.
    pub prior_name: String,
}

impl SessionTable {
    /// The peer on a session-host socket is not the daemon's user: the session is
    /// marked `Terminated` at once (its deadline untouched), announced before the
    /// list. The sidecar is deleted at once and the collection of the session,
    /// with the socket the monitor connected to, starts.
    pub fn reject_peer(&mut self, id: &str, socket_path: &str) -> (r: TableChange)
        requires
            old(self).wf(),
        ensures
            final(self).wf(),
            final(self)@ == (match lookup(old(self)@, id@) {
                Some(e) => replace_session(old(self)@, id@, with_state(e, SessionState::Terminated)),
                None => old(self)@,
            }),
            events_view(r.events@) == transition_events(id@, SessionState::Terminated, final(self)@),
            r.sidecar is None,
            opt_text(r.gc_socket) == Some(socket_path@),
            !r.abort_proxy,
            r.remove_sidecar,
    {
        match self.find(id) {
            Some(i) => {
                proof {
                    self.lemma_view();
                }
                let has_conn = self.entries[i].has_conn;
                let has_reader = self.entries[i].has_reader;
                let has_proxy = self.entries[i].has_proxy;
                self.put_flags(i, SessionState::Terminated, has_conn, has_reader, has_proxy);
                assert(self@ =~= replace_session(old(self)@, id@, with_state(old(self)@[i as int], SessionState::Terminated)));
            },
            None => {},
        }
        let events = self.transition_broadcasts(id, SessionState::Terminated);
        TableChange {
            events,
            sidecar: None,
            gc_socket: Some(String::from_str(socket_path)),
            abort_proxy: false,
            remove_sidecar: true,
        }
    }

    /// The post-spawn monitor connected to the session-host: the session now has a
    /// control connection, without a parked reader or a proxy yet.
    pub fn connect_control(&mut self, id: &str)
        requires
            old(self).wf(),
        ensures
            final(self).wf(),
            final(self)@ == (match lookup(old(self)@, id@) {
                Some(e) => replace_session(old(self)@, id@, connected_entry(e)),
                None => old(self)@,
            }),
    {
        match self.find(id) {
            Some(i) => {
                proof {
                    self.lemma_view();
                }
                let state = self.entries[i].state;
                self.put_flags(i, state, true, false, false);
                assert(self@ =~= replace_session(old(self)@, id@, connected_entry(old(self)@[i as int])));
            },
            None => {},
        }
    }

    /// The session-host reported missing environment variables: the session is
    /// marked degraded with the reason. No state change, no broadcast.
    pub fn mark_degraded(&mut self, id: &str, reason: String)
        requires
            old(self).wf(),
        ensures
            final(self).wf(),
            final(self)@ == (match lookup(old(self)@, id@) {
                Some(e) => replace_session(old(self)@, id@, degraded_entry(e, reason@)),
                None => old(self)@,
            }),
    {
        match self.find(id) {
            Some(i) => {
                let ghost e2 = degraded_entry(self@[i as int], reason@);
                proof {
                    lemma_replace_at(self@, i as int, e2);
                }
                self.entries[i].degraded = true;
                self.entries[i].degraded_reason = Some(reason);
                assert(self@ =~= old(self)@.update(i as int, e2));
            },
            None => {},
        }
    }

    /// The session-host reported `Running`: the session becomes `Running`, and the
    /// broadcasts (state change before list) and the sidecar to re-persist are
    /// returned. For an unknown ID nothing changes and `None` comes back (the
    /// monitor stops).
    pub fn mark_running(&mut self, id: &str, socket_path: &str) -> (r: Option<RunningTransition>)
        requires
            old(self).wf(),
        ensures
            final(self).wf(),
            match lookup(old(self)@, id@) {
                Some(e) => {
                    &&& final(self)@ == replace_session(old(self)@, id@, with_state(e, SessionState::Running))
                    &&& r matches Some(t) && events_view(t.change.events@) == transition_events(
                        id@,
                        SessionState::Running,
                        final(self)@,
                    ) && t.sidecar@ == running_sidecar_of(e, socket_path@, None) && t.change.sidecar is None
                        && t.change.gc_socket is None && !t.change.abort_proxy && !t.change.remove_sidecar
                },
                None => final(self)@ == old(self)@ && r is None,
            },
    {
        match self.find(id) {
            Some(i) => {
                proof {
                    self.lemma_view();
                }
                let has_conn = self.entries[i].has_conn;
                let has_reader = self.entries[i].has_reader;
                let has_proxy = self.entries[i].has_proxy;
                self.put_flags(i, SessionState::Running, has_conn, has_reader, has_proxy);
                assert(self@ =~= replace_session(old(self)@, id@, with_state(old(self)@[i as int], SessionState::Running)));
                proof {
                    self.lemma_view();
                }
                let e = &self.entries[i];
                let sidecar = SessionSidecar {
                    schema_version: SIDECAR_SCHEMA_VERSION,
                    session_id: e.session_id.clone(),
                    pid: e.session_host_pid,
                    socket_path: String::from_str(socket_path),
                    child_pid: None,
                    state: SessionState::Running,
                    project_root: e.project_root.clone(),
                    cwd: e.cwd.clone(),
                    harness_id: e.harness_id.clone(),
                    profile_id: e.profile_id.clone(),
                    started_at: e.started_at.clone(),
                    display_name: e.display_name.clone(),
                    pty_rows: DEFAULT_PTY_ROWS,
                    pty_cols: DEFAULT_PTY_COLS,
                    kill_deadline_unix_ms: None,
                };
                assert(self@[i as int] == with_state(old(self)@[i as int], SessionState::Running));
                assert(sidecar@ == running_sidecar_of(old(self)@[i as int], socket_path@, None));
                let events = self.transition_broadcasts(id, SessionState::Running);
                Some(RunningTransition {
                    change: TableChange { events, sidecar: None, gc_socket: None, abort_proxy: false, remove_sidecar: false },
                    sidecar,
                })
            },
            None => None,
        }
    }

    /// After `Running`, the post-spawn monitor parks its read half on the control
    /// connection for a later kill confirmation.
    pub fn park_reader(&mut self, id: &str)
        requires
            old(self).wf(),
        ensures
            final(self).wf(),
            final(self)@ == (match lookup(old(self)@, id@) {
                Some(e) => if e.has_conn {
                    replace_session(old(self)@, id@, EntryView { has_reader: true, ..e })
                } else {
                    old(self)@
                },
                None => old(self)@,
            }),
    {
        match self.find(id) {
            Some(i) => {
                proof {
                    self.lemma_view();
                }
                if self.entries[i].has_conn {
                    let state = self.entries[i].state;
                    let has_proxy = self.entries[i].has_proxy;
                    self.put_flags(i, state, true, true, has_proxy);
                    assert(self@ =~= replace_session(old(self)@, id@, EntryView { has_reader: true, ..old(self)@[i as int] }));
                }
            },
            None => {},
        }
    }

    /// Renames a session. In order: the ID must be a UUID (`SessionNotFound`); the
    /// name must pass `validate_display_name` (`InvalidSessionName`); the session
    /// must be registered (`SessionNotFound`) and not `Terminated`
    /// (`InvalidSessionName` "session terminated"). Every rejection leaves the
    /// registry unchanged. On success the display name changes in memory, and the
    /// list broadcast (never a state change) and the sidecar update are returned
    /// with the prior name.
    pub fn rename(&mut self, id: &str, new_name: String) -> (r: Result<Rename, SessionError>)
        requires
            old(self).wf(),
        ensures
            final(self).wf(),
            !uuid_text(id@) ==> final(self)@ == old(self)@ && (r matches Err(err) && not_found_error(err, id@)),
            uuid_text(id@) && display_name_rejection(new_name@) is Some ==> {
                &&& final(self)@ == old(self)@
                &&& r matches Err(SessionError::InvalidSessionName { reason })
                &&& reason@ == display_name_rejection(new_name@)->0
            },
            uuid_text(id@) && display_name_rejection(new_name@) is None ==> match lookup(old(self)@, id@) {
                None => final(self)@ == old(self)@ && (r matches Err(err) && not_found_error(err, id@)),
                Some(e) => if e.state == SessionState::Terminated {
                    &&& final(self)@ == old(self)@
                    &&& r matches Err(SessionError::InvalidSessionName { reason })
                    &&& reason@ == "session terminated"@
                } else {
                    &&& final(self)@ == replace_session(old(self)@, id@, renamed_entry(e, new_name@))
                    &&& r matches Ok(rn)
                    &&& rn.prior_name@ == e.display_name
                    &&& events_view(rn.change.events@) == list_events(final(self)@)
                    &&& patch_is(rn.change.sidecar, rename_patch(new_name@))
                    &&& rn.change.gc_socket is None
                    &&& !rn.change.abort_proxy
                    &&& !rn.change.remove_sidecar
                },
            },
    {
        if !is_valid_session_id(id) {
            return Err(Self::not_found(id));
        }
        match validate_display_name(new_name.as_str()) {
            Err(e) => return Err(e),
            Ok(()) => {},
        }
        match self.find(id) {
            None => Err(Self::not_found(id)),
            Some(i) => {
                proof {
                    self.lemma_view();
                }
                if self.entries[i].state == SessionState::Terminated {
                    return Err(SessionError::InvalidSessionName { reason: String::from_str("session terminated") });
                }
                let prior_name = self.entries[i].display_name.clone();
                let ghost e2 = renamed_entry(self@[i as int], new_name@);
                proof {
                    lemma_replace_at(self@, i as int, e2);
                }
                let patch = make_rename_patch(new_name.clone());
                self.entries[i].display_name = new_name;
                assert(self@ =~= old(self)@.update(i as int, e2));
                let events = self.list_broadcast();
                Ok(Rename {
                    change: TableChange { events, sidecar: Some(patch), gc_socket: None, abort_proxy: false, remove_sidecar: false },
                    prior_name,
                })
            },
        }
    }

    /// Restores the display name of a session whose rename could not be persisted.
    pub fn restore_name(&mut self, id: &str, prior_name: String)
        requires
            old(self).wf(),
        ensures
            final(self).wf(),
            final(self)@ == (match lookup(old(self)@, id@) {
                Some(e) => replace_session(old(self)@, id@, renamed_entry(e, prior_name@)),
                None => old(self)@,
            }),
    {
        match self.find(id) {
            Some(i) => {
                let ghost e2 = renamed_entry(self@[i as int], prior_name@);
                proof {
                    lemma_replace_at(self@, i as int, e2);
                }
                self.entries[i].display_name = prior_name;
                assert(self@ =~= old(self)@.update(i as int, e2));
            },
            None => {},
        }
    }

    /// Finishes a rename once the sidecar write was tried. Written: the list
    /// broadcast of the rename is released, the registry unchanged. Not written:
    /// the prior name is restored, nothing is broadcast, and the error is
    /// `SidecarWriteFailed` with the sidecar's path and the write's reason.
    pub fn settle_rename(
        &mut self,
        id: &str,
        rn: Rename,
        written: Result<(), String>,
        sidecar_file: &str,
    ) -> (r: Result<Vec<ServerToClient>, SessionError>)
        requires
            old(self).wf(),
        ensures
            final(self).wf(),
            match written {
                Ok(()) => final(self)@ == old(self)@ && (r matches Ok(ev) && ev@ == rn.change.events@),
                Err(reason) => {
                    &&& final(self)@ == (match lookup(old(self)@, id@) {
                        Some(e) => replace_session(old(self)@, id@, renamed_entry(e, rn.prior_name@)),
                        None => old(self)@,
                    })
                    &&& r matches Err(SessionError::SidecarWriteFailed { path, reason: why })
                    &&& path@ == sidecar_file@
                    &&& why@ == reason@
                },
            },
    {
        match written {
            Ok(()) => Ok(rn.change.events),
            Err(reason) => {
                self.restore_name(id, rn.prior_name);
                Err(SessionError::SidecarWriteFailed { path: String::from_str(sidecar_file), reason })
            },
        }
    }
}

} // verus!
