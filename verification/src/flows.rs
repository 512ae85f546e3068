use vstd::prelude::*;
use vstd::string::StringExecFns;

use crate::model::{io_error_is, EngineError, IoError, IoErrorKind, SessionError};
use crate::names::decimal_string;
use crate::names::decimal;
use crate::signals::SignalOutcome;
use crate::table::KillPlan;

verus! {

// ---------------------------------------------------------------------------
// Kill protocol
// ---------------------------------------------------------------------------

/// Where a kill stands.
#[derive(Debug, Clone, Copy, PartialEq, Eq, Structural)]
pub enum KillStage {
    /// Kill is being written on the established control connection.
    WritingExisting,
    /// That write failed: connecting afresh.
    FallbackConnecting,
    /// Connected afresh after the failed write: checking the peer.
    FallbackChecking,
    /// Peer accepted: Kill is being written on the fresh connection.
    FallbackWriting,
    /// Detached session: connecting afresh.
    FreshConnecting,
    /// Connected: checking the peer.
    FreshChecking,
    /// Peer accepted: Kill is being written on the fresh connection.
    FreshWriting,
    /// SIGTERM is being sent to the launching session-host.
    Signalling,
    /// Nothing more to do.
    Finished,
}

/// What the daemon reports back after performing a kill action.
#[derive(Debug)]
pub enum KillEvent {
    /// The Kill frame was written (and flushed), or the I/O error.
    Written(Result<(), IoError>),
    /// The Kill frame was refused before writing: its body has this many bytes.
    Oversized(usize),
    /// The fresh connect succeeded (within its timeout) or not.
    Connected(bool),
    /// The peer check on the fresh connection accepted the peer or not.
    PeerChecked(bool),
    /// What the SIGTERM gave.
    Signalled(SignalOutcome),
}

/// Which reader confirms the kill once the session is `Terminating`.
#[derive(Debug, Clone, Copy, PartialEq, Eq, Structural)]
pub enum ConfirmWith {
    /// The read half parked on the established connection, if any; otherwise the
    /// proxy task or, failing both, the watchdog alone.
    ParkedReader,
    /// The fresh connection's read half.
    FreshReader,
    /// The fresh connection's read half; the stale parked reader is dropped.
    FreshReaderDropParked,
    /// No reader: the watchdog alone.
    WatchdogOnly,
}

/// What the daemon does next in a kill.
#[derive(Debug)]
pub enum KillAction {
    /// Write the Kill frame on the established connection.
    WriteOnExisting,
    /// Connect to the session-host socket afresh (bounded by a timeout).
    ConnectFresh,
    /// Check the peer of the fresh connection.
    CheckPeer,
    /// Write the Kill frame on the fresh connection.
    WriteOnFresh,
    /// SIGTERM the session-host.
    Sigterm,
    /// The session-host is unreachable or not ours: mark the session terminated,
    /// then succeed.
    TerminateSession,
    /// Kill delivered: mark the session terminating, start the confirmation reader
    /// and the watchdog, then succeed.
    StartTerminating(ConfirmWith),
    /// Succeed without doing anything.
    Done,
    /// Fail with this error.
    Fail(SessionError),
}

/// The stage a kill starts in for a plan.
pub open spec fn kill_start_stage(plan: KillPlan) -> KillStage {
    match plan {
        KillPlan::Idempotent => KillStage::Finished,
        KillPlan::ExistingConn { .. } => KillStage::WritingExisting,
        KillPlan::PidFallback { .. } => KillStage::Signalling,
        KillPlan::FreshConnect { .. } => KillStage::FreshConnecting,
    }
}

/// The event is the kind the stage's action reports.
pub open spec fn kill_event_fits(stage: KillStage, e: KillEvent) -> bool {
    match stage {
        KillStage::WritingExisting => e is Written || e is Oversized,
        KillStage::FallbackConnecting | KillStage::FreshConnecting => e is Connected,
        KillStage::FallbackChecking | KillStage::FreshChecking => e is PeerChecked,
        KillStage::FallbackWriting | KillStage::FreshWriting => e is Written,
        KillStage::Signalling => e is Signalled,
        KillStage::Finished => false,
    }
}

/// The stage after an event.
pub open spec fn kill_next_stage(stage: KillStage, e: KillEvent) -> KillStage {
    match (stage, e) {
        (KillStage::WritingExisting, KillEvent::Written(Err(_))) => KillStage::FallbackConnecting,
        (KillStage::FallbackConnecting, KillEvent::Connected(true)) => KillStage::FallbackChecking,
        (KillStage::FallbackChecking, KillEvent::PeerChecked(true)) => KillStage::FallbackWriting,
        (KillStage::FreshConnecting, KillEvent::Connected(true)) => KillStage::FreshChecking,
        (KillStage::FreshChecking, KillEvent::PeerChecked(true)) => KillStage::FreshWriting,
        _ => KillStage::Finished,
    }
}

/// How far a stage is from the end: every event strictly lowers it.
pub open spec fn kill_rank(stage: KillStage) -> nat {
    match stage {
        KillStage::WritingExisting => 4,
        KillStage::FallbackConnecting => 3,
        KillStage::FallbackChecking => 2,
        KillStage::FallbackWriting => 1,
        KillStage::FreshConnecting => 3,
        KillStage::FreshChecking => 2,
        KillStage::FreshWriting => 1,
        KillStage::Signalling => 1,
        KillStage::Finished => 0,
    }
}

/// The I/O error of a Kill body over the frame limit.
pub open spec fn oversized_kill_message(n: nat) -> Seq<char> {
    "outbound Kill message exceeds MAX_FRAME_LEN: "@ + decimal(n) + " bytes"@
}

/// The action after an event, as a relation on the exec values.
pub open spec fn kill_action_fits(stage: KillStage, e: KillEvent, a: KillAction, session_id: Seq<char>) -> bool {
    match (stage, e) {
        (KillStage::WritingExisting, KillEvent::Written(Ok(()))) => a == KillAction::StartTerminating(ConfirmWith::ParkedReader),
        (KillStage::WritingExisting, KillEvent::Written(Err(_))) => a is ConnectFresh,
        (KillStage::WritingExisting, KillEvent::Oversized(n)) => a matches KillAction::Fail(SessionError::Io(err))
            && io_error_is(err, IoErrorKind::InvalidData, oversized_kill_message(n as nat)),
        (KillStage::FallbackConnecting, KillEvent::Connected(ok)) => if ok { a is CheckPeer } else { a is TerminateSession },
        (KillStage::FreshConnecting, KillEvent::Connected(ok)) => if ok { a is CheckPeer } else { a is TerminateSession },
        (KillStage::FallbackChecking, KillEvent::PeerChecked(ok)) => if ok { a is WriteOnFresh } else { a is TerminateSession },
        (KillStage::FreshChecking, KillEvent::PeerChecked(ok)) => if ok { a is WriteOnFresh } else { a is TerminateSession },
        (KillStage::FallbackWriting, KillEvent::Written(r)) => match r {
            Ok(()) => a == KillAction::StartTerminating(ConfirmWith::FreshReaderDropParked),
            Err(err) => a matches KillAction::Fail(SessionError::Io(got)) && got == err,
        },
        (KillStage::FreshWriting, KillEvent::Written(r)) => match r {
            Ok(()) => a == KillAction::StartTerminating(ConfirmWith::FreshReader),
            Err(err) => a matches KillAction::Fail(SessionError::Io(got)) && got == err,
        },
        (KillStage::Signalling, KillEvent::Signalled(o)) => if o == SignalOutcome::Failed {
            a matches KillAction::Fail(SessionError::SessionHostDead { session_id: s }) && s@ == session_id
        } else {
            a == KillAction::StartTerminating(ConfirmWith::WatchdogOnly)
        },
        _ => false,
    }
}

/// A kill in progress.
#[derive(Debug)]
pub struct KillFlow {
    pub session_id: String,
    pub stage: KillStage,
}

impl KillFlow {
    /// Starts a kill from its plan: nothing for an idempotent kill, a write on the
    /// established connection, a SIGTERM, or a fresh connect.
    pub fn start(session_id: &str, plan: &KillPlan) -> (r: (KillFlow, KillAction))
        ensures
            r.0.session_id@ == session_id@,
            r.0.stage == kill_start_stage(*plan),
            r.1 == (match *plan {
                KillPlan::Idempotent => KillAction::Done,
                KillPlan::ExistingConn { .. } => KillAction::WriteOnExisting,
                KillPlan::PidFallback { .. } => KillAction::Sigterm,
                KillPlan::FreshConnect { .. } => KillAction::ConnectFresh,
            }),
    {
        let (stage, action) = match plan {
            KillPlan::Idempotent => (KillStage::Finished, KillAction::Done),
            KillPlan::ExistingConn { .. } => (KillStage::WritingExisting, KillAction::WriteOnExisting),
            KillPlan::PidFallback { .. } => (KillStage::Signalling, KillAction::Sigterm),
            KillPlan::FreshConnect { .. } => (KillStage::FreshConnecting, KillAction::ConnectFresh),
        };
        (KillFlow { session_id: String::from_str(session_id), stage }, action)
    }

    /// Advances the kill on the outcome of its last action. A failed write on the
    /// established connection falls back to a fresh connect; a fresh connect that
    /// fails, or a peer that is not the daemon's user, means the session is dead:
    /// it is terminated and the kill succeeds. Kill goes over a fresh connection
    /// only after the peer check passed.
    pub fn step(&mut self, e: KillEvent) -> (a: KillAction)
        requires
            kill_event_fits(old(self).stage, e),
        ensures
            final(self).session_id == old(self).session_id,
            final(self).stage == kill_next_stage(old(self).stage, e),
            kill_action_fits(old(self).stage, e, a, old(self).session_id@),
    {
        let stage = self.stage;
        match e {
            KillEvent::Written(r) => match stage {
                KillStage::WritingExisting => match r {
                    Ok(()) => {
                        self.stage = KillStage::Finished;
                        KillAction::StartTerminating(ConfirmWith::ParkedReader)
                    },
                    Err(_) => {
                        self.stage = KillStage::FallbackConnecting;
                        KillAction::ConnectFresh
                    },
                },
                KillStage::FallbackWriting => {
                    self.stage = KillStage::Finished;
                    match r {
                        Ok(()) => KillAction::StartTerminating(ConfirmWith::FreshReaderDropParked),
                        Err(msg) => KillAction::Fail(SessionError::Io(msg)),
                    }
                },
                _ => {
                    self.stage = KillStage::Finished;
                    match r {
                        Ok(()) => KillAction::StartTerminating(ConfirmWith::FreshReader),
                        Err(msg) => KillAction::Fail(SessionError::Io(msg)),
                    }
                },
            },
            KillEvent::Oversized(n) => {
                self.stage = KillStage::Finished;
                let mut msg = String::from_str("outbound Kill message exceeds MAX_FRAME_LEN: ");
                let digits = decimal_string(n as u128);
                msg.append(digits.as_str());
                msg.append(" bytes");
                KillAction::Fail(SessionError::Io(IoError { kind: IoErrorKind::InvalidData, message: msg }))
            },
            KillEvent::Connected(ok) => {
                if ok {
                    self.stage = if stage == KillStage::FallbackConnecting {
                        KillStage::FallbackChecking
                    } else {
                        KillStage::FreshChecking
                    };
                    KillAction::CheckPeer
                } else {
                    self.stage = KillStage::Finished;
                    KillAction::TerminateSession
                }
            },
            KillEvent::PeerChecked(ok) => {
                if ok {
                    self.stage = if stage == KillStage::FallbackChecking {
                        KillStage::FallbackWriting
                    } else {
                        KillStage::FreshWriting
                    };
                    KillAction::WriteOnFresh
                } else {
                    self.stage = KillStage::Finished;
                    KillAction::TerminateSession
                }
            },
            KillEvent::Signalled(o) => {
                self.stage = KillStage::Finished;
                match o {
                    SignalOutcome::Failed => KillAction::Fail(
                        SessionError::SessionHostDead { session_id: self.session_id.clone() },
                    ),
                    _ => KillAction::StartTerminating(ConfirmWith::WatchdogOnly),
                }
            },
        }
    }
}

/// Every kill ends: each event strictly lowers the stage's rank, and a finished
/// kill takes no more events.
pub proof fn lemma_kill_terminates(stage: KillStage, e: KillEvent)
    requires
        kill_event_fits(stage, e),
    ensures
        kill_rank(kill_next_stage(stage, e)) < kill_rank(stage),
        !kill_event_fits(KillStage::Finished, e),
{
}

/// Kill is written on a fresh connection only right after its peer was checked and
/// accepted; a rejected peer or a failed connect never leads to a write.
pub proof fn lemma_fresh_write_needs_peer_check(stage: KillStage, e: KillEvent, a: KillAction, id: Seq<char>)
    requires
        kill_event_fits(stage, e),
        kill_action_fits(stage, e, a, id),
        a is WriteOnFresh,
    ensures
        stage == KillStage::FallbackChecking || stage == KillStage::FreshChecking,
        e == KillEvent::PeerChecked(true),
{
}

/// The session is only marked terminating once Kill was written, or the SIGTERM
/// did not fail with an error other than "no such process".
pub proof fn lemma_terminating_only_after_delivery(stage: KillStage, e: KillEvent, a: KillAction, id: Seq<char>)
    requires
        kill_event_fits(stage, e),
        kill_action_fits(stage, e, a, id),
        a is StartTerminating,
    ensures
        (e matches KillEvent::Written(r) && r is Ok) || (e matches KillEvent::Signalled(o) && o != SignalOutcome::Failed),
{
}

// ---------------------------------------------------------------------------
// Spawn protocol
// ---------------------------------------------------------------------------

/// Where a spawn stands after it was validated.
#[derive(Debug, Clone, Copy, PartialEq, Eq, Structural)]
pub enum SpawnStage {
    /// The engine module is building the launch recipe.
    Recipe,
    /// The session-host process is being started.
    Starting,
    /// The sidecar of the started session-host is being written.
    WritingSidecar { pid: u32 },
    /// The session is being registered.
    Registering { pid: u32 },
    /// Nothing more to do.
    Finished,
}

/// What the daemon reports back after performing a spawn action.
#[derive(Debug)]
pub enum SpawnEvent {
    /// The engine built the recipe, or failed.
    RecipeBuilt(Result<(), EngineError>),
    /// The session-host started with this PID, or failed.
    HostStarted(Result<u32, SessionError>),
    /// The sidecar was written atomically, or failed.
    SidecarWritten(Result<(), SessionError>),
    /// The registration succeeded, or failed (the ID was taken meanwhile).
    Registered(Result<(), SessionError>),
}

/// What the daemon does next in a spawn.
#[derive(Debug)]
pub enum SpawnAction {
    /// Start the session-host process.
    StartHost,
    /// Write the sidecar atomically.
    WriteSidecar,
    /// Register the session (`SessionTable::commit_spawn`).
    Register,
    /// Broadcast the registration, start the post-spawn monitor, return the ID.
    Complete,
    /// Give up: kill the orphaned session-host if one was started, remove the
    /// sidecar if one was written, and fail with the error.
    Abort { orphan_pid: Option<u32>, remove_sidecar: bool, error: SessionError },
}

/// The event is the kind the stage's action reports.
pub open spec fn spawn_event_fits(stage: SpawnStage, e: SpawnEvent) -> bool {
    match stage {
        SpawnStage::Recipe => e is RecipeBuilt,
        SpawnStage::Starting => e is HostStarted,
        SpawnStage::WritingSidecar { .. } => e is SidecarWritten,
        SpawnStage::Registering { .. } => e is Registered,
        SpawnStage::Finished => false,
    }
}

/// The stage after an event.
pub open spec fn spawn_next_stage(stage: SpawnStage, e: SpawnEvent) -> SpawnStage {
    match (stage, e) {
        (SpawnStage::Recipe, SpawnEvent::RecipeBuilt(Ok(()))) => SpawnStage::Starting,
        (SpawnStage::Starting, SpawnEvent::HostStarted(Ok(pid))) => SpawnStage::WritingSidecar { pid },
        (SpawnStage::WritingSidecar { pid }, SpawnEvent::SidecarWritten(Ok(()))) => SpawnStage::Registering { pid },
        _ => SpawnStage::Finished,
    }
}

/// The action after an event.
pub open spec fn spawn_action_fits(stage: SpawnStage, e: SpawnEvent, a: SpawnAction) -> bool {
    match (stage, e) {
        (SpawnStage::Recipe, SpawnEvent::RecipeBuilt(r)) => match r {
            Ok(()) => a is StartHost,
            Err(err) => a matches SpawnAction::Abort { orphan_pid: None, remove_sidecar: false, error: SessionError::EngineError(x) }
                && x == err,
        },
        (SpawnStage::Starting, SpawnEvent::HostStarted(r)) => match r {
            Ok(_) => a is WriteSidecar,
            Err(err) => a == SpawnAction::Abort { orphan_pid: None, remove_sidecar: false, error: err },
        },
        (SpawnStage::WritingSidecar { pid }, SpawnEvent::SidecarWritten(r)) => match r {
            Ok(()) => a is Register,
            Err(err) => a == SpawnAction::Abort { orphan_pid: Some(pid), remove_sidecar: false, error: err },
        },
        (SpawnStage::Registering { pid }, SpawnEvent::Registered(r)) => match r {
            Ok(()) => a is Complete,
            Err(err) => a == SpawnAction::Abort { orphan_pid: Some(pid), remove_sidecar: true, error: err },
        },
        _ => false,
    }
}

/// A validated spawn in progress.
#[derive(Debug)]
pub struct SpawnFlow {
    pub stage: SpawnStage,
}

impl SpawnFlow {
    /// A spawn starts by asking the engine for the launch recipe: no OS process is
    /// started before that.
    pub fn start() -> (f: SpawnFlow)
        ensures
            f.stage == SpawnStage::Recipe,
    {
        SpawnFlow { stage: SpawnStage::Recipe }
    }

    /// Advances the spawn. Every failure after the session-host was started kills
    /// the orphan; a registration refused after the sidecar was written also removes
    /// the sidecar. Registration comes only after the sidecar is on disk.
    pub fn step(&mut self, e: SpawnEvent) -> (a: SpawnAction)
        requires
            spawn_event_fits(old(self).stage, e),
        ensures
            final(self).stage == spawn_next_stage(old(self).stage, e),
            spawn_action_fits(old(self).stage, e, a),
    {
        let stage = self.stage;
        match e {
            SpawnEvent::RecipeBuilt(r) => match r {
                Ok(()) => {
                    self.stage = SpawnStage::Starting;
                    SpawnAction::StartHost
                },
                Err(err) => {
                    self.stage = SpawnStage::Finished;
                    SpawnAction::Abort { orphan_pid: None, remove_sidecar: false, error: SessionError::EngineError(err) }
                },
            },
            SpawnEvent::HostStarted(r) => match r {
                Ok(pid) => {
                    self.stage = SpawnStage::WritingSidecar { pid };
                    SpawnAction::WriteSidecar
                },
                Err(err) => {
                    self.stage = SpawnStage::Finished;
                    SpawnAction::Abort { orphan_pid: None, remove_sidecar: false, error: err }
                },
            },
            SpawnEvent::SidecarWritten(r) => {
                let pid = match stage {
                    SpawnStage::WritingSidecar { pid } => pid,
                    _ => 0,
                };
                match r {
                    Ok(()) => {
                        self.stage = SpawnStage::Registering { pid };
                        SpawnAction::Register
                    },
                    Err(err) => {
                        self.stage = SpawnStage::Finished;
                        SpawnAction::Abort { orphan_pid: Some(pid), remove_sidecar: false, error: err }
                    },
                }
            },
            SpawnEvent::Registered(r) => {
                let pid = match stage {
                    SpawnStage::Registering { pid } => pid,
                    _ => 0,
                };
                self.stage = SpawnStage::Finished;
                match r {
                    Ok(()) => SpawnAction::Complete,
                    Err(err) => SpawnAction::Abort { orphan_pid: Some(pid), remove_sidecar: true, error: err },
                }
            },
        }
    }
}

/// A session is registered only after its sidecar was written, and every abort once
/// the session-host was started names it for the orphan kill.
pub proof fn lemma_spawn_cleanup(stage: SpawnStage, e: SpawnEvent, a: SpawnAction)
    requires
        spawn_event_fits(stage, e),
        spawn_action_fits(stage, e, a),
    ensures
        a is Register ==> (stage is WritingSidecar && (e matches SpawnEvent::SidecarWritten(r) && r is Ok)),
        a is Abort && (stage is WritingSidecar || stage is Registering) ==> (a matches SpawnAction::Abort { orphan_pid: Some(_), .. }),
        a is Abort && (stage is Recipe || stage is Starting) ==> (a matches SpawnAction::Abort { orphan_pid: None, remove_sidecar: false, .. }),
{
}

} // verus!
