use vstd::prelude::*;
use vstd::string::StringExecFns;

use crate::model::{io_error_is, IoError, IoErrorKind, SessionError};
use crate::sidecar_json::{json_string_text, pairs_view};
use crate::protocol::join_with;
use crate::names::{
    path_debug_text, decimal, decimal_string, fresh_session_id, is_v4_text, joined_path,
    socket_file_name_of, socket_path,
};

verus! {

/// What a spawner reports about a started session-host.
#[derive(Debug)]
pub struct SpawnedHostHandle {
    /// OS process ID of the session-host.
    pub pid: u32,
    /// Socket the session-host binds: `<runtime_dir>/session-<session_id>.sock`.
    pub socket_path: String,
}

/// The production spawner: runs the `monocle-session-host` binary, which detaches
/// itself into its own session.
#[derive(Debug)]
pub struct RealSessionHostSpawner {
    /// Absolute path of the `monocle-session-host` binary.
    pub session_host_bin: String,
}

/// The text of `serde_json::to_string` of a list of strings: each string as JSON,
/// separated by commas, in brackets.
pub open spec fn json_string_list(items: Seq<Seq<char>>) -> Seq<char> {
    seq!['['] + join_with(items.map_values(|s: Seq<char>| json_string_text(s)), seq![',']) + seq![']']
}

/// `serde_json::to_string` of a `Vec<String>`.
///
/// Claimed of `serde_json`: serializing a list of strings cannot fail, and the text
/// is the compact JSON array of the strings, in order, each escaped as
/// `json_string_text` says.
#[verifier::external_body]
fn json_of_strings(items: &Vec<String>) -> (r: String)
    ensures
        r@ == json_string_list(items@.map_values(|s: String| s@)),
{
    serde_json::to_string(items).unwrap_or_default()
}

/// The command line of a session-host, after the binary itself.
pub open spec fn host_argv(
    session_id: Seq<char>,
    runtime_dir: Seq<char>,
    binary: Seq<char>,
    args_json: Seq<char>,
    env_json: Seq<char>,
    cwd: Seq<char>,
) -> Seq<Seq<char>> {
    seq![
        "--session-id"@, session_id,
        "--runtime-dir"@, runtime_dir,
        "--binary"@, binary,
        "--args"@, args_json,
        "--env"@, env_json,
        "--cwd"@, cwd,
    ]
}

impl RealSessionHostSpawner {
    /// The harness arguments as the session-host takes them: a JSON array.
    pub fn encode_args(args: &Vec<String>) -> (r: String)
        ensures
            r@ == json_string_list(args@.map_values(|s: String| s@)),
    {
        json_of_strings(args)
    }

    /// The arguments passed to the session-host binary: every recipe field as a
    /// flag and its value.
    pub fn command_args(
        &self,
        session_id: &str,
        runtime_dir: &str,
        binary: &str,
        args_json: &str,
        env_json: &str,
        cwd: &str,
    ) -> (r: Vec<String>)
        ensures
            r@.map_values(|s: String| s@) == host_argv(session_id@, runtime_dir@, binary@, args_json@, env_json@, cwd@),
    {
        let mut v: Vec<String> = Vec::new();
        v.push(String::from_str("--session-id"));
        v.push(String::from_str(session_id));
        v.push(String::from_str("--runtime-dir"));
        v.push(String::from_str(runtime_dir));
        v.push(String::from_str("--binary"));
        v.push(String::from_str(binary));
        v.push(String::from_str("--args"));
        v.push(String::from_str(args_json));
        v.push(String::from_str("--env"));
        v.push(String::from_str(env_json));
        v.push(String::from_str("--cwd"));
        v.push(String::from_str(cwd));
        assert(v@.map_values(|s: String| s@) =~= host_argv(session_id@, runtime_dir@, binary@, args_json@, env_json@, cwd@));
        v
    }

    /// The error for a failed process start: a missing binary names the binary;
    /// any other failure carries the OS error text.
    pub fn spawn_error(&self, binary_missing: bool, os_error: &str) -> (r: SessionError)
        ensures
            r matches SessionError::SpawnFailed { reason } && reason@ == spawn_failure_reason(
                self.session_host_bin@,
                binary_missing,
                os_error@,
            ),
    {
        if binary_missing {
            let mut reason = String::from_str("monocle-session-host binary not found at ");
            let quoted = crate::names::quoted_path(self.session_host_bin.as_str());
            reason.append(quoted.as_str());
            reason.append(": ");
            reason.append(os_error);
            SessionError::SpawnFailed { reason }
        } else {
            SessionError::SpawnFailed { reason: String::from_str(os_error) }
        }
    }

    /// The harness environment as the session-host takes it: a JSON object.
    pub fn encode_env(env: &Vec<(String, String)>) -> (r: String)
        ensures
            r@ == json_string_map(pairs_view(env@)),
    {
        json_of_string_pairs(env)
    }

    /// The full argument list of a session-host for a launch recipe: the recipe's
    /// arguments and environment encoded as JSON.
    pub fn host_command(
        &self,
        session_id: &str,
        runtime_dir: &str,
        binary: &str,
        args: &Vec<String>,
        env: &Vec<(String, String)>,
        cwd: &str,
    ) -> (r: Vec<String>)
        ensures
            r@.map_values(|s: String| s@) == host_argv(
                session_id@,
                runtime_dir@,
                binary@,
                json_string_list(args@.map_values(|s: String| s@)),
                json_string_map(pairs_view(env@)),
                cwd@,
            ),
    {
        let args_json = Self::encode_args(args);
        let env_json = Self::encode_env(env);
        self.command_args(session_id, runtime_dir, binary, args_json.as_str(), env_json.as_str(), cwd)
    }

    /// What a launch gives: the started process's PID and the conventional socket
    /// path, or the launch error (whether the binary was missing, and the OS error).
    pub fn launched(
        &self,
        session_id: &str,
        runtime_dir: &str,
        launch: Result<u32, (bool, String)>,
    ) -> (r: Result<SpawnedHostHandle, SessionError>)
        ensures
            match launch {
                Ok(pid) => r matches Ok(h) && h.pid == pid
                    && h.socket_path@ == joined_path(runtime_dir@, socket_file_name_of(session_id@))
                    && (runtime_dir@.len() > 0 && runtime_dir@.last() != '/' ==> h.socket_path@
                        == runtime_dir@ + "/"@ + socket_file_name_of(session_id@)),
                Err((missing, os_error)) => r matches Err(SessionError::SpawnFailed { reason })
                    && reason@ == spawn_failure_reason(self.session_host_bin@, missing, os_error@),
            },
    {
        match launch {
            Ok(pid) => Ok(SpawnedHostHandle { pid, socket_path: socket_path(runtime_dir, session_id) }),
            Err((missing, os_error)) => Err(self.spawn_error(missing, os_error.as_str())),
        }
    }
}

/// The reason of a failed session-host start.
pub open spec fn spawn_failure_reason(binary: Seq<char>, binary_missing: bool, os_error: Seq<char>) -> Seq<char> {
    if binary_missing {
        "monocle-session-host binary not found at "@ + path_debug_text(binary) + ": "@ + os_error
    } else {
        os_error
    }
}

/// The text of `serde_json` serializing string pairs as a JSON object of strings.
pub uninterp spec fn json_string_map(pairs: Seq<(Seq<char>, Seq<char>)>) -> Seq<char>;

/// A `serde_json::Map` of string values built from the pairs, written with
/// `to_string`.
///
/// Claimed of `serde_json`: the text is a function of the pairs alone (a JSON object
/// whose members are the pairs, a later pair with the same key replacing an earlier
/// one). The escaping and the member order are not stated.
#[verifier::external_body]
fn json_of_string_pairs(pairs: &Vec<(String, String)>) -> (r: String)
    ensures
        r@ == json_string_map(pairs_view(pairs@)),
{
    serde_json::Value::Object(
        pairs.iter().map(|(k, v)| (k.clone(), serde_json::Value::String(v.clone()))).collect(),
    ).to_string()
}

/// In-memory spawner for tests: fails with the configured reason, or reports the
/// configured PID and the conventional socket path.
#[derive(Debug)]
pub struct MockSessionHostSpawner {
    /// If `Some(reason)`, spawning fails with `SpawnFailed { reason }`.
    pub spawn_result: Option<String>,
    /// PID reported on success.
    pub fake_pid: u32,
}

impl MockSessionHostSpawner {
    /// The outcome of spawning `session_id` under `runtime_dir`.
    pub fn spawn(&self, session_id: &str, runtime_dir: &str) -> (r: Result<SpawnedHostHandle, SessionError>)
        ensures
            match self.spawn_result {
                Some(reason) => r matches Err(SessionError::SpawnFailed { reason: got }) && got@ == reason@,
                None => r matches Ok(h) && h.pid == self.fake_pid
                    && h.socket_path@ == joined_path(runtime_dir@, socket_file_name_of(session_id@))
                    && (runtime_dir@.len() > 0 && runtime_dir@.last() != '/' ==> h.socket_path@
                        == runtime_dir@ + "/"@ + socket_file_name_of(session_id@)),
            },
    {
        match &self.spawn_result {
            Some(reason) => Err(SessionError::SpawnFailed { reason: reason.clone() }),
            None => Ok(SpawnedHostHandle { pid: self.fake_pid, socket_path: socket_path(runtime_dir, session_id) }),
        }
    }
}

/// The production peer check: the peer on a session-host socket must run as the
/// daemon's user.
#[derive(Debug)]
pub struct RealPeerCredVerifier;

impl RealPeerCredVerifier {
    /// Decides on the peer's user ID (or the error reading it) against the
    /// daemon's. A failure to read it, or a different user, rejects the peer.
    pub fn check(&self, peer_uid: Result<u32, IoError>, daemon_uid: u32) -> (r: Result<(), SessionError>)
        ensures
            match peer_uid {
                Ok(p) => if p == daemon_uid {
                    r is Ok
                } else {
                    r matches Err(SessionError::Io(err)) && io_error_is(
                        err,
                        IoErrorKind::PermissionDenied,
                        "SO_PEERCRED UID mismatch: peer_uid="@ + decimal(p as nat) + " daemon_uid="@ + decimal(
                            daemon_uid as nat,
                        ),
                    )
                },
                Err(e) => r matches Err(SessionError::Io(err)) && err == e,
            },
    {
        match peer_uid {
            Err(e) => Err(SessionError::Io(e)),
            Ok(p) => if p == daemon_uid {
                Ok(())
            } else {
                let mut msg = String::from_str("SO_PEERCRED UID mismatch: peer_uid=");
                let a = decimal_string(p as u128);
                msg.append(a.as_str());
                msg.append(" daemon_uid=");
                let b = decimal_string(daemon_uid as u128);
                msg.append(b.as_str());
                Err(SessionError::Io(IoError { kind: IoErrorKind::PermissionDenied, message: msg }))
            },
        }
    }
}

/// Test peer check with a fixed answer.
#[derive(Debug)]
pub struct FakePeerCredVerifier {
    /// If `true` every peer is accepted; otherwise every peer is rejected.
    pub allow: bool,
}

impl FakePeerCredVerifier {
    /// The configured answer.
    pub fn verify(&self) -> (r: Result<(), SessionError>)
        ensures
            self.allow ==> r is Ok,
            !self.allow ==> (r matches Err(SessionError::Io(err)) && io_error_is(
                err,
                IoErrorKind::PermissionDenied,
                "FakePeerCredVerifier: simulated UID mismatch"@,
            )),
    {
        if self.allow {
            Ok(())
        } else {
            Err(
                SessionError::Io(
                    IoError {
                        kind: IoErrorKind::PermissionDenied,
                        message: String::from_str("FakePeerCredVerifier: simulated UID mismatch"),
                    },
                ),
            )
        }
    }
}

/// Source of session IDs for the spawn handler.
pub trait SessionIdGenerator {
    /// The next session ID.
    fn next_id(&mut self) -> String;
}

/// The production generator: a fresh random UUID v4 on every call.
#[derive(Debug)]
pub struct UuidV4Generator;

impl SessionIdGenerator for UuidV4Generator {
    fn next_id(&mut self) -> (r: String)
        ensures
            is_v4_text(r@),
    {
        fresh_session_id()
    }
}

/// Test generator that yields IDs from a script, cycling: the n-th call (from 0)
/// yields `ids[n % ids.len()]`.
#[derive(Debug)]
pub struct SequencedIdGenerator {
    ids: Vec<String>,
    call_count: usize,
}

/// The call counter after one more call; it wraps at `usize::MAX` like an atomic
/// `fetch_add`.
pub open spec fn next_count(c: usize) -> usize {
    if c == usize::MAX { 0 } else { (c + 1) as usize }
}

impl SequencedIdGenerator {
    #[verifier::type_invariant]
    spec fn script_not_empty(&self) -> bool {
        self.ids@.len() > 0
    }

    /// The scripted IDs.
    pub closed spec fn script(&self) -> Seq<Seq<char>> {
        self.ids@.map_values(|s: String| s@)
    }

    /// How many IDs have been handed out (modulo `usize::MAX + 1`).
    pub closed spec fn calls(&self) -> usize {
        self.call_count
    }

    /// A generator over a non-empty script (an empty one cannot produce IDs).
    pub fn new(ids: Vec<String>) -> (g: Self)
        requires
            ids@.len() > 0,
        ensures
            g.script() == ids@.map_values(|s: String| s@),
            g.calls() == 0,
    {
        SequencedIdGenerator { ids, call_count: 0 }
    }
}

impl SessionIdGenerator for SequencedIdGenerator {
    fn next_id(&mut self) -> (r: String)
        ensures
            old(self).script().len() > 0,
            r@ == old(self).script()[(old(self).calls() as int) % (old(self).script().len() as int)],
            final(self).script() == old(self).script(),
            final(self).calls() == next_count(old(self).calls()),
    {
        proof {
            use_type_invariant(&*self);
        }
        let n = self.call_count;
        let len = self.ids.len();
        let r = self.ids[n % len].clone();
        self.call_count = if n == usize::MAX { 0 } else { n + 1 };
        r
    }
}

/// What re-discovery of session-hosts found on daemon start.
#[derive(Debug)]
pub struct RediscoveryReport {
    /// Sidecars found.
    pub found: usize,
    /// Live sessions registered again.
    pub alive: usize,
    /// Dead or stale sidecars cleaned up.
    pub cleaned: usize,
}

} // verus!
