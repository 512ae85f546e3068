use vstd::prelude::*;
use vstd::string::StringExecFns;

use crate::model::SessionError;

verus! {

/// Seconds from a kill request until the watchdog forces termination (a ten-second
/// SIGTERM window plus two seconds of buffer).
pub const KILL_DEADLINE_SECS: u64 = 12;

/// Seconds a terminated session stays listed before it is collected.
pub const GC_GRACE_SECS: u64 = 10;

/// Seconds the whole attach protocol may take.
pub const ATTACH_TIMEOUT_SECS: u64 = 5;

/// Seconds a fresh connect to a session-host socket may take during a kill.
pub const CONNECT_TIMEOUT_SECS: u64 = 2;

/// Seconds the post-spawn monitor waits for the socket, and then for `Running`.
pub const MONITOR_DEADLINE_SECS: u64 = 30;

/// Milliseconds between connect attempts of the post-spawn monitor.
pub const MONITOR_POLL_MS: u64 = 20;

/// Seconds an orphaned session-host gets to exit after SIGTERM before SIGKILL.
pub const ORPHAN_GRACE_SECS: u64 = 2;

/// Milliseconds between liveness probes of an orphaned session-host.
pub const ORPHAN_POLL_MS: u64 = 50;

/// What sending a signal (or the null signal, as a liveness probe) gave.
#[derive(Debug, Clone, Copy, PartialEq, Eq, Structural)]
pub enum SignalOutcome {
    /// The signal was delivered (the process exists).
    Delivered,
    /// `ESRCH`: no such process.
    NoSuchProcess,
    /// Any other error, such as `EPERM`.
    Failed,
}

/// The kill of a launching session without a control connection goes by SIGTERM.
/// Delivered, or no such process, counts as killed; any other failure means the
/// kill was not delivered: `SessionHostDead`, and no transition.
pub fn pid_fallback_result(session_id: &str, sigterm: SignalOutcome) -> (r: Result<(), SessionError>)
    ensures
        sigterm == SignalOutcome::Failed ==> (r matches Err(SessionError::SessionHostDead { session_id: s }) && s@ == session_id@),
        sigterm != SignalOutcome::Failed ==> r is Ok,
{
    match sigterm {
        SignalOutcome::Failed => Err(SessionError::SessionHostDead { session_id: String::from_str(session_id) }),
        _ => Ok(()),
    }
}

/// The next action while disposing of an orphaned session-host.
#[derive(Debug, Clone, Copy, PartialEq, Eq, Structural)]
pub enum OrphanStep {
    /// The process is gone (or cannot be probed): stop.
    Done,
    /// Probe whether the process still lives.
    Probe,
    /// Still alive within the grace period: wait, then probe again.
    Wait,
    /// Still alive after the grace period: send SIGKILL and stop.
    SendSigkill,
}

/// After the SIGTERM to an orphan: a process already gone needs nothing more;
/// otherwise (delivered, or refused with an error other than `ESRCH`, which must
/// not be taken for an exit) its liveness is probed.
pub fn orphan_after_sigterm(sigterm: SignalOutcome) -> (r: OrphanStep)
    ensures
        r == (if sigterm == SignalOutcome::NoSuchProcess { OrphanStep::Done } else { OrphanStep::Probe }),
{
    match sigterm {
        SignalOutcome::NoSuchProcess => OrphanStep::Done,
        _ => OrphanStep::Probe,
    }
}

/// After a liveness probe of an orphan: gone, or a probe error, ends the disposal;
/// alive means wait, or SIGKILL once the grace period is over.
pub fn orphan_after_probe(probe: SignalOutcome, grace_over: bool) -> (r: OrphanStep)
    ensures
        r == (match probe {
            SignalOutcome::Delivered => if grace_over { OrphanStep::SendSigkill } else { OrphanStep::Wait },
            _ => OrphanStep::Done,
        }),
{
    match probe {
        SignalOutcome::Delivered => if grace_over {
            OrphanStep::SendSigkill
        } else {
            OrphanStep::Wait
        },
        _ => OrphanStep::Done,
    }
}

/// `x` capped at `u64::MAX`.
pub open spec fn cap_u64(x: u128) -> u64 {
    if x > u64::MAX as u128 { u64::MAX } else { x as u64 }
}

/// The kill deadline written to the sidecar, in Unix milliseconds: the wall clock
/// plus the time left until the watchdog fires, each capped at `u64::MAX` and added
/// with saturation; `0` when the clock is before the epoch.
pub open spec fn kill_deadline_ms_of(now_since_epoch_ms: Option<u128>, remaining_ms: u128) -> u64 {
    match now_since_epoch_ms {
        None => 0,
        Some(now) => {
            let sum = cap_u64(now) + cap_u64(remaining_ms);
            if sum > u64::MAX { u64::MAX } else { sum as u64 }
        },
    }
}

/// Exec form of `kill_deadline_ms_of`.
pub fn kill_deadline_unix_ms(now_since_epoch_ms: Option<u128>, remaining_ms: u128) -> (r: u64)
    ensures
        r == kill_deadline_ms_of(now_since_epoch_ms, remaining_ms),
{
    match now_since_epoch_ms {
        None => 0,
        Some(now) => {
            let now_ms: u64 = if now > u64::MAX as u128 { u64::MAX } else { now as u64 };
            let rem_ms: u64 = if remaining_ms > u64::MAX as u128 { u64::MAX } else { remaining_ms as u64 };
            now_ms.saturating_add(rem_ms)
        },
    }
}

/// The harness child's PID read from a sidecar, accepted only when it is a valid
/// positive PID (`1..=i32::MAX`): the value comes from a file and must not wrap
/// into a process group or a negative PID.
pub open spec fn valid_child_pid_of(raw: Option<u64>) -> Option<u32> {
    match raw {
        Some(n) => if 0 < n && n <= i32::MAX as u64 { Some(n as u32) } else { None },
        None => None,
    }
}

/// Exec form of `valid_child_pid_of`; used before the watchdog SIGKILLs the
/// harness child.
pub fn validated_child_pid(raw: Option<u64>) -> (r: Option<u32>)
    ensures
        r == valid_child_pid_of(raw),
{
    match raw {
        Some(n) => if 0 < n && n <= 0x7fff_ffffu64 {
            Some(n as u32)
        } else {
            None
        },
        None => None,
    }
}

/// The harness child's PID carried over when the sidecar is re-written at
/// `Running`: the low 32 bits of the recorded number.
pub open spec fn carried_child_pid_of(raw: Option<u64>) -> Option<u32> {
    match raw {
        Some(n) => Some((n % 0x1_0000_0000) as u32),
        None => None,
    }
}

/// Exec form of `carried_child_pid_of`.
pub fn carried_child_pid(raw: Option<u64>) -> (r: Option<u32>)
    ensures
        r == carried_child_pid_of(raw),
{
    match raw {
        Some(n) => Some((n % 0x1_0000_0000u64) as u32),
        None => None,
    }
}

} // verus!
