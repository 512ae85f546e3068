use vstd::prelude::*;

use crate::model::SessionState;
use crate::names::opt_text;

verus! {

/// Version of the sidecar schema the daemon writes.
pub const SIDECAR_SCHEMA_VERSION: u32 = 3;

/// Terminal rows recorded for a new session.
pub const DEFAULT_PTY_ROWS: u16 = 24;

/// Terminal columns recorded for a new session.
pub const DEFAULT_PTY_COLS: u16 = 80;

/// The durable record of a session, written next to its socket as
/// `session-<id>.json`.
#[derive(Debug)]
pub struct SessionSidecar {
    pub schema_version: u32,
    pub session_id: String,
    pub pid: u32,
    pub socket_path: String,
    pub child_pid: Option<u32>,
    pub state: SessionState,
    pub project_root: String,
    pub cwd: String,
    pub harness_id: String,
    pub profile_id: String,
    pub started_at: String,
    pub display_name: String,
    pub pty_rows: u16,
    pub pty_cols: u16,
    pub kill_deadline_unix_ms: Option<u64>,
}

/// The mathematical value of a `SessionSidecar`.
pub struct SidecarView {
    pub schema_version: u32,
    pub session_id: Seq<char>,
    pub pid: u32,
    pub socket_path: Seq<char>,
    pub child_pid: Option<u32>,
    pub state: SessionState,
    pub project_root: Seq<char>,
    pub cwd: Seq<char>,
    pub harness_id: Seq<char>,
    pub profile_id: Seq<char>,
    pub started_at: Seq<char>,
    pub display_name: Seq<char>,
    pub pty_rows: u16,
    pub pty_cols: u16,
    pub kill_deadline_unix_ms: Option<u64>,
}

impl View for SessionSidecar {
    type V = SidecarView;

    open spec fn view(&self) -> SidecarView {
        SidecarView {
            schema_version: self.schema_version,
            session_id: self.session_id@,
            pid: self.pid,
            socket_path: self.socket_path@,
            child_pid: self.child_pid,
            state: self.state,
            project_root: self.project_root@,
            cwd: self.cwd@,
            harness_id: self.harness_id@,
            profile_id: self.profile_id@,
            started_at: self.started_at@,
            display_name: self.display_name@,
            pty_rows: self.pty_rows,
            pty_cols: self.pty_cols,
            kill_deadline_unix_ms: self.kill_deadline_unix_ms,
        }
    }
}

/// What happens to the kill deadline field of a sidecar on an update.
#[derive(Debug, Clone, Copy, PartialEq, Eq, Structural)]
pub enum DeadlinePatch {
    /// Leave the field as it is.
    Keep,
    /// Write `null`.
    Clear,
    /// Write this many Unix milliseconds.
    Write(u64),
}

/// The fields an in-place sidecar update rewrites; every other field of the file
/// is kept as the file holds it.
#[derive(Debug)]
pub struct SidecarPatch {
    pub state: Option<SessionState>,
    pub kill_deadline: DeadlinePatch,
    pub display_name: Option<String>,
}

/// The mathematical value of a `SidecarPatch`.
pub struct PatchView {
    pub state: Option<SessionState>,
    pub kill_deadline: DeadlinePatch,
    pub display_name: Option<Seq<char>>,
}

impl View for SidecarPatch {
    type V = PatchView;

    open spec fn view(&self) -> PatchView {
        PatchView {
            state: self.state,
            kill_deadline: self.kill_deadline,
            display_name: opt_text(self.display_name),
        }
    }
}

/// The update at the start of the kill protocol: state and deadline together, so a
/// reader never sees one without the other.
pub open spec fn terminating_patch(ms: u64) -> PatchView {
    PatchView { state: Some(SessionState::Terminating), kill_deadline: DeadlinePatch::Write(ms), display_name: None }
}

/// The update on termination: the deadline is cleared.
pub open spec fn terminated_patch() -> PatchView {
    PatchView { state: Some(SessionState::Terminated), kill_deadline: DeadlinePatch::Clear, display_name: None }
}

/// The update on detach.
pub open spec fn detached_patch() -> PatchView {
    PatchView { state: Some(SessionState::Detached), kill_deadline: DeadlinePatch::Keep, display_name: None }
}

/// The update on rename: the display name alone.
pub open spec fn rename_patch(name: Seq<char>) -> PatchView {
    PatchView { state: None, kill_deadline: DeadlinePatch::Keep, display_name: Some(name) }
}

/// Exec form of `terminating_patch`.
pub fn make_terminating_patch(ms: u64) -> (p: SidecarPatch)
    ensures
        p@ == terminating_patch(ms),
{
    SidecarPatch { state: Some(SessionState::Terminating), kill_deadline: DeadlinePatch::Write(ms), display_name: None }
}

/// Exec form of `terminated_patch`.
pub fn make_terminated_patch() -> (p: SidecarPatch)
    ensures
        p@ == terminated_patch(),
{
    SidecarPatch { state: Some(SessionState::Terminated), kill_deadline: DeadlinePatch::Clear, display_name: None }
}

/// Exec form of `detached_patch`.
pub fn make_detached_patch() -> (p: SidecarPatch)
    ensures
        p@ == detached_patch(),
{
    SidecarPatch { state: Some(SessionState::Detached), kill_deadline: DeadlinePatch::Keep, display_name: None }
}

/// Exec form of `rename_patch`.
pub fn make_rename_patch(name: String) -> (p: SidecarPatch)
    ensures
        p@ == rename_patch(name@),
{
    SidecarPatch { state: None, kill_deadline: DeadlinePatch::Keep, display_name: Some(name) }
}

} // verus!
