use vstd::prelude::*;
use vstd::string::StringExecFns;

use crate::model::{io_error_is, IoError, IoErrorKind, SessionError, SessionState};
use crate::names::{decimal, decimal_string};

verus! {

/// A message from a session-host on its control connection, as far as the daemon's
/// decisions depend on it.
#[derive(Debug)]
pub enum HostMessage {
    /// The session-host changed state; a `Launching` report may list missing
    /// environment variables.
    StateChanged { new_state: SessionState, degraded_env: Option<Vec<String>> },
    /// The session-host is closing the connection.
    Goodbye,
    /// Terminal output.
    PtyBytes,
    /// The terminal was reset.
    PtyReset,
    /// One chunk of the scrollback dump sent on attach.
    ScrollbackChunk,
    /// End of the scrollback dump, with the screen geometry.
    ScrollbackDumpComplete { total_chunks: u32, cursor_row: u16, cursor_col: u16, pty_rows: u16, pty_cols: u16 },
    /// Any other message.
    Other,
}

/// `parts` joined with `sep` between consecutive parts.
pub open spec fn join_with(parts: Seq<Seq<char>>, sep: Seq<char>) -> Seq<char>
    decreases parts.len(),
{
    if parts.len() == 0 {
        Seq::empty()
    } else if parts.len() == 1 {
        parts[0]
    } else {
        join_with(parts.drop_last(), sep) + sep + parts.last()
    }
}

/// The degraded reason recorded for a list of missing variables.
pub open spec fn degraded_reason_of(missing: Seq<Seq<char>>) -> Seq<char> {
    "Missing env: "@ + join_with(missing, ", "@)
}

/// `Missing env: A, B, …`.
pub fn degraded_reason(missing: &Vec<String>) -> (r: String)
    ensures
        r@ == degraded_reason_of(missing@.map_values(|s: String| s@)),
{
    let ghost parts = missing@.map_values(|s: String| s@);
    let mut joined = String::from_str("");
    proof {
        reveal_strlit("");
    }
    let n = missing.len();
    let mut i: usize = 0;
    while i < n
        invariant
            n == missing@.len(),
            parts == missing@.map_values(|s: String| s@),
            i <= n,
            joined@ == join_with(parts.take(i as int), ", "@),
        decreases n - i,
    {
        proof {
            assert(parts.take(i + 1).drop_last() =~= parts.take(i as int));
            assert(parts.take(i + 1).last() == missing@[i as int]@);
        }
        if i > 0 {
            joined.append(", ");
        }
        joined.append(missing[i].as_str());
        proof {
            if i == 0 {
                assert(join_with(parts.take(1), ", "@) == parts.take(1)[0]);
                assert(joined@ =~= join_with(parts.take(1), ", "@));
            }
        }
        i = i + 1;
    }
    assert(parts.take(n as int) =~= parts);
    let mut r = String::from_str("Missing env: ");
    r.append(joined.as_str());
    r
}

/// What the post-spawn monitor does on a message read before `Running`.
#[derive(Debug)]
pub enum MonitorStep {
    /// Keep reading.
    Continue,
    /// Record the session as degraded with this reason, then keep reading.
    MarkDegraded(String),
    /// The session is running: transition it, hand over the reader, stop.
    BecomeRunning,
    /// The session-host said goodbye: stop.
    Stop,
}

/// The post-spawn monitor's decision for one message: a `Launching` report with a
/// non-empty list of missing variables marks the session degraded; `Running`
/// completes the launch; `Goodbye` ends the monitor; anything else is skipped.
pub fn post_spawn_step(msg: &HostMessage) -> (r: MonitorStep)
    ensures
        match *msg {
            HostMessage::StateChanged { new_state: SessionState::Launching, degraded_env: Some(missing) } => if missing@.len() > 0 {
                r matches MonitorStep::MarkDegraded(reason) && reason@ == degraded_reason_of(missing@.map_values(|s: String| s@))
            } else {
                r is Continue
            },
            HostMessage::StateChanged { new_state: SessionState::Running, .. } => r is BecomeRunning,
            HostMessage::Goodbye => r is Stop,
            _ => r is Continue,
        },
{
    match msg {
        HostMessage::StateChanged { new_state, degraded_env } => {
            match new_state {
                SessionState::Launching => match degraded_env {
                    Some(missing) => if missing.len() > 0 {
                        MonitorStep::MarkDegraded(degraded_reason(missing))
                    } else {
                        MonitorStep::Continue
                    },
                    None => MonitorStep::Continue,
                },
                SessionState::Running => MonitorStep::BecomeRunning,
                _ => MonitorStep::Continue,
            }
        },
        HostMessage::Goodbye => MonitorStep::Stop,
        _ => MonitorStep::Continue,
    }
}

/// What a reader of the control connection does after the session is running.
#[derive(Debug, Clone, Copy, PartialEq, Eq, Structural)]
pub enum ReaderStep {
    /// Keep reading.
    Continue,
    /// Mark the session terminated, then stop.
    Terminate,
    /// Stop reading; the kill watchdog settles the session.
    Stop,
}

/// The PTY proxy's decision: a `Terminated` report or a goodbye terminates the
/// session at once (without waiting for the kill watchdog); everything else is
/// consumed.
pub fn proxy_step(msg: &HostMessage) -> (r: ReaderStep)
    ensures
        r == (match *msg {
            HostMessage::StateChanged { new_state: SessionState::Terminated, .. } => ReaderStep::Terminate,
            HostMessage::Goodbye => ReaderStep::Terminate,
            _ => ReaderStep::Continue,
        }),
{
    match msg {
        HostMessage::StateChanged { new_state: SessionState::Terminated, .. } => ReaderStep::Terminate,
        HostMessage::Goodbye => ReaderStep::Terminate,
        _ => ReaderStep::Continue,
    }
}

/// The kill-confirmation reader's decision: a `Terminated` report terminates the
/// session; a goodbye without it leaves the session to the watchdog; anything else
/// is skipped.
pub fn kill_confirm_step(msg: &HostMessage) -> (r: ReaderStep)
    ensures
        r == (match *msg {
            HostMessage::StateChanged { new_state: SessionState::Terminated, .. } => ReaderStep::Terminate,
            HostMessage::Goodbye => ReaderStep::Stop,
            _ => ReaderStep::Continue,
        }),
{
    match msg {
        HostMessage::StateChanged { new_state: SessionState::Terminated, .. } => ReaderStep::Terminate,
        HostMessage::Goodbye => ReaderStep::Stop,
        _ => ReaderStep::Continue,
    }
}

/// What the attach protocol does with a message of the scrollback dump.
#[derive(Debug, Clone, Copy, PartialEq, Eq, Structural)]
pub enum ScrollbackStep {
    /// Keep the chunk.
    Collect,
    /// The dump is complete: the attach succeeds.
    Complete,
    /// Not part of the dump: skip it and keep waiting.
    Skip,
}

/// Classifies a message read during the scrollback dump.
pub fn scrollback_step(msg: &HostMessage) -> (r: ScrollbackStep)
    ensures
        r == (match *msg {
            HostMessage::ScrollbackChunk => ScrollbackStep::Collect,
            HostMessage::ScrollbackDumpComplete { .. } => ScrollbackStep::Complete,
            _ => ScrollbackStep::Skip,
        }),
{
    match msg {
        HostMessage::ScrollbackChunk => ScrollbackStep::Collect,
        HostMessage::ScrollbackDumpComplete { .. } => ScrollbackStep::Complete,
        _ => ScrollbackStep::Skip,
    }
}

/// Whether the chunk count the dump announced differs from the chunks received
/// (counted modulo 2^32, as the wire's 32-bit count is).
pub fn scrollback_truncated(received: usize, total_chunks: u32) -> (r: bool)
    ensures
        r == ((received as int) % 0x1_0000_0000 != total_chunks as int),
{
    let wide = received as u64;
    let low = (wide % 0x1_0000_0000u64) as u32;
    low != total_chunks
}

/// How the attach protocol against a detached session-host ended.
#[derive(Debug, Clone, Copy, PartialEq, Eq, Structural)]
pub enum AttachOutcome {
    /// Scrollback dump received: the session can run again.
    Success,
    /// The socket could not be connected: the session-host is gone.
    ConnectFailed,
    /// The peer is not the daemon's user.
    PeerCredFailed,
    /// The peer is ours but the exchange failed.
    ProtocolError,
    /// The five-second deadline passed.
    Timeout,
}

/// What follows a failed attach.
#[derive(Debug, Clone, Copy, PartialEq, Eq, Structural)]
pub enum AttachRecovery {
    /// SIGTERM the unresponsive session-host.
    SigtermHost,
    /// Mark the session terminated (announced, collected).
    TerminateSession,
    /// Leave the session detached; a later attach may succeed.
    StayDetached,
}

/// The recovery after an attach outcome, and the error returned, which is always
/// `SessionHostDead`. A successful outcome has none.
pub fn attach_failure(session_id: &str, outcome: AttachOutcome) -> (r: Option<(AttachRecovery, SessionError)>)
    ensures
        outcome == AttachOutcome::Success ==> r is None,
        outcome != AttachOutcome::Success ==> (r matches Some((rec, err)) && (err matches SessionError::SessionHostDead { session_id: s } && s@ == session_id@)
            && rec == (match outcome {
                AttachOutcome::Timeout => AttachRecovery::SigtermHost,
                AttachOutcome::ConnectFailed | AttachOutcome::PeerCredFailed => AttachRecovery::TerminateSession,
                _ => AttachRecovery::StayDetached,
            })),
{
    let recovery = match outcome {
        AttachOutcome::Success => {
            return None;
        },
        AttachOutcome::Timeout => AttachRecovery::SigtermHost,
        AttachOutcome::ConnectFailed => AttachRecovery::TerminateSession,
        AttachOutcome::PeerCredFailed => AttachRecovery::TerminateSession,
        AttachOutcome::ProtocolError => AttachRecovery::StayDetached,
    };
    Some((recovery, SessionError::SessionHostDead { session_id: String::from_str(session_id) }))
}

/// How sending one control message to a session-host ended.
#[derive(Debug)]
pub enum SendOutcome {
    /// Written and flushed.
    Written,
    /// The body has this many bytes, over the frame limit: nothing was sent.
    Oversized(usize),
    /// The write failed with this I/O error.
    Failed(IoError),
}

/// The I/O error of a Detach body over the frame limit.
pub open spec fn oversized_detach_message(n: nat) -> Seq<char> {
    "outbound Detach message exceeds MAX_FRAME_LEN: "@ + decimal(n) + " bytes"@
}

/// Detach is sent on a best-effort basis: a failed write does not stop the
/// detach, but a Detach body over the frame limit fails it with an I/O error.
pub fn detach_send_result(o: &SendOutcome) -> (r: Result<(), SessionError>)
    ensures
        match *o {
            SendOutcome::Oversized(n) => r matches Err(SessionError::Io(err)) && io_error_is(
                err,
                IoErrorKind::InvalidData,
                oversized_detach_message(n as nat),
            ),
            _ => r is Ok,
        },
{
    match o {
        SendOutcome::Oversized(n) => {
            let mut msg = String::from_str("outbound Detach message exceeds MAX_FRAME_LEN: ");
            let digits = decimal_string(*n as u128);
            msg.append(digits.as_str());
            msg.append(" bytes");
            Err(SessionError::Io(IoError { kind: IoErrorKind::InvalidData, message: msg }))
        },
        _ => Ok(()),
    }
}

/// How reading one frame from a session-host ended.
#[derive(Debug, Clone, Copy, PartialEq, Eq, Structural)]
pub enum FrameRead {
    /// A message this daemon knows.
    Message,
    /// A well-framed body that is not such a message.
    Undecodable,
    /// The peer closed the connection.
    Closed,
    /// A length of zero or over the frame limit.
    BadLength,
    /// The read failed.
    Failed,
}

/// What a reading task does with a frame.
#[derive(Debug, Clone, Copy, PartialEq, Eq, Structural)]
pub enum ReadDecision {
    /// Act on the message.
    Handle,
    /// Skip the frame and read the next one.
    Skip,
    /// Stop reading.
    Stop,
}

/// The post-spawn monitor, the kill confirmation reader and the PTY proxy skip a
/// frame they cannot decode, and stop on a closed connection, a bad length or a
/// failed read.
pub fn read_decision(r: FrameRead) -> (d: ReadDecision)
    ensures
        d == (match r {
            FrameRead::Message => ReadDecision::Handle,
            FrameRead::Undecodable => ReadDecision::Skip,
            _ => ReadDecision::Stop,
        }),
{
    match r {
        FrameRead::Message => ReadDecision::Handle,
        FrameRead::Undecodable => ReadDecision::Skip,
        _ => ReadDecision::Stop,
    }
}

/// While draining the scrollback, anything but a decoded message ends the attach
/// as a protocol error.
pub fn scrollback_read_decision(r: FrameRead) -> (d: ReadDecision)
    ensures
        d == (if r == FrameRead::Message { ReadDecision::Handle } else { ReadDecision::Stop }),
{
    if r == FrameRead::Message {
        ReadDecision::Handle
    } else {
        ReadDecision::Stop
    }
}

/// The count of scrollback chunks after one more chunk; it saturates at
/// `usize::MAX`.
pub fn count_chunk(received: usize) -> (r: usize)
    ensures
        r == (if received == usize::MAX { usize::MAX as int } else { received + 1 }),
{
    if received == usize::MAX {
        received
    } else {
        received + 1
    }
}

} // verus!
