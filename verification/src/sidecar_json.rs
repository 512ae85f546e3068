use vstd::prelude::*;
use vstd::string::StringExecFns;

use crate::model::SessionState;
use crate::names::{decimal, decimal_string, same_text};
use crate::sidecar::{DeadlinePatch, PatchView, SidecarPatch};
use crate::signals::{carried_child_pid, carried_child_pid_of, valid_child_pid_of, validated_child_pid};

verus! {

// ---------------------------------------------------------------------------
// Reading the sidecar text
// ---------------------------------------------------------------------------

/// What `serde_json` reads as an unsigned integer from member `key` of a JSON text:
/// `None` when the text is not JSON, is not an object, lacks the member, or the
/// member is not an integer that fits a `u64`.
pub uninterp spec fn json_member_u64(text: Seq<char>, key: Seq<char>) -> Option<u64>;

/// `serde_json::from_str::<Value>`, then `get(key)` and `as_u64`.
///
/// Claimed of `serde_json`: the result is a function of the text and the key alone.
/// Which texts parse is not stated.
#[verifier::external_body]
fn json_u64_member(text: &str, key: &str) -> (r: Option<u64>)
    ensures
        r == json_member_u64(text@, key@),
{
    serde_json::from_str::<serde_json::Value>(text).ok().and_then(|v| v.get(key).and_then(|c| c.as_u64()))
}

/// The harness child's PID recorded in a sidecar text, if it is a usable PID
/// (positive and within `i32`): the one the watchdog SIGKILLs.
pub fn sidecar_child_pid(text: &str) -> (r: Option<u32>)
    ensures
        r == valid_child_pid_of(json_member_u64(text@, "child_pid"@)),
{
    let raw = json_u64_member(text, "child_pid");
    validated_child_pid(raw)
}

/// The harness child's PID recorded in a sidecar text, carried over (truncated to
/// 32 bits) into the sidecar rewritten at the `Running` transition.
pub fn sidecar_carried_child_pid(text: &str) -> (r: Option<u32>)
    ensures
        r == carried_child_pid_of(json_member_u64(text@, "child_pid"@)),
{
    let raw = json_u64_member(text, "child_pid");
    carried_child_pid(raw)
}

// ---------------------------------------------------------------------------
// Updating the sidecar text in place
// ---------------------------------------------------------------------------

/// The members of a JSON object text as `serde_json` reads them into its map: each
/// key with the compact JSON text of its value, in the map's order. `None` when the
/// text is not a JSON object.
pub uninterp spec fn json_object_members(text: Seq<char>) -> Option<Seq<(Seq<char>, Seq<char>)>>;

/// Whether `serde_json` reads the text as the JSON value `null`.
pub uninterp spec fn json_is_null(text: Seq<char>) -> bool;

/// `serde_json::from_str::<Value>` of the text, then `is_null`; `false` when the text
/// does not parse.
///
/// Claimed of `serde_json`: the answer is a function of the text alone.
#[verifier::external_body]
fn json_null_text(text: &str) -> (r: bool)
    ensures
        r == json_is_null(text@),
{
    serde_json::from_str::<serde_json::Value>(text).map(|v| v.is_null()).unwrap_or(false)
}

/// The lowercase hexadecimal digit of `d` (below 16).
pub open spec fn lower_hex_digit(d: int) -> char {
    if d < 10 { (('0' as int) + d) as char } else { (('a' as int) + d - 10) as char }
}

/// How `serde_json` writes one character inside a string: `"` and `\` behind a
/// backslash, the short escapes for backspace, tab, line feed, form feed and
/// carriage return, `\u00XX` (lowercase hex) for the other control characters
/// below U+0020, and every other character as itself.
pub open spec fn json_escape_char(c: char) -> Seq<char> {
    if c == '"' {
        seq!['\\', '"']
    } else if c == '\\' {
        seq!['\\', '\\']
    } else if c == '\u{8}' {
        seq!['\\', 'b']
    } else if c == '\t' {
        seq!['\\', 't']
    } else if c == '\n' {
        seq!['\\', 'n']
    } else if c == '\u{c}' {
        seq!['\\', 'f']
    } else if c == '\r' {
        seq!['\\', 'r']
    } else if (c as int) < 0x20 {
        seq!['\\', 'u', '0', '0', lower_hex_digit((c as int) / 16), lower_hex_digit((c as int) % 16)]
    } else {
        seq![c]
    }
}

/// The characters of a string, each escaped.
pub open spec fn json_escaped(s: Seq<char>) -> Seq<char>
    decreases s.len(),
{
    if s.len() == 0 {
        Seq::empty()
    } else {
        json_escaped(s.drop_last()) + json_escape_char(s.last())
    }
}

/// The compact JSON text of a string value: the escaped characters in double
/// quotes.
pub open spec fn json_string_text(s: Seq<char>) -> Seq<char> {
    seq!['"'] + json_escaped(s) + seq!['"']
}

/// The pretty-printed JSON object of the members (key, value text), as
/// `serde_json::to_string_pretty` writes it; `None` when a value text is not JSON.
pub uninterp spec fn json_pretty_object(members: Seq<(Seq<char>, Seq<char>)>) -> Option<Seq<char>>;

/// The texts of a list of string pairs.
pub open spec fn pairs_view(v: Seq<(String, String)>) -> Seq<(Seq<char>, Seq<char>)> {
    v.map_values(|p: (String, String)| (p.0@, p.1@))
}

/// `serde_json::from_str::<Map<String, Value>>`, each value turned back into its
/// compact text.
///
/// Claimed of `serde_json`: the members are a function of the text alone. Which
/// texts parse, and the order of the map, are not stated.
#[verifier::external_body]
fn json_object_entries(text: &str) -> (r: Option<Vec<(String, String)>>)
    ensures
        match r {
            Some(v) => json_object_members(text@) == Some(pairs_view(v@)),
            None => json_object_members(text@) is None,
        },
{
    serde_json::from_str::<serde_json::Map<String, serde_json::Value>>(text)
        .ok()
        .map(|m| m.into_iter().map(|(k, v)| (k, v.to_string())).collect())
}

/// `serde_json::Value::String(s).to_string()`.
///
/// Claimed of `serde_json` (`format_escaped_str` with the compact formatter): the
/// text is `s` in double quotes, escaped as `json_escape_char` says.
#[verifier::external_body]
fn json_string_literal(s: &str) -> (r: String)
    ensures
        r@ == json_string_text(s@),
{
    serde_json::Value::String(s.to_string()).to_string()
}

/// `serde_json::to_string_pretty` of the object whose members are parsed from the
/// value texts.
///
/// Claimed of `serde_json`: the result is a function of the members alone. The
/// layout and the member order are not stated.
#[verifier::external_body]
fn json_object_pretty(members: &Vec<(String, String)>) -> (r: Option<String>)
    ensures
        match r {
            Some(s) => json_pretty_object(pairs_view(members@)) == Some(s@),
            None => json_pretty_object(pairs_view(members@)) is None,
        },
{
    members
        .iter()
        .map(|(k, v)| serde_json::from_str::<serde_json::Value>(v).map(|x| (k.clone(), x)))
        .collect::<Result<serde_json::Map<String, serde_json::Value>, serde_json::Error>>()
        .ok()
        .and_then(|m| serde_json::to_string_pretty(&serde_json::Value::Object(m)).ok())
}

/// Member `key` set to `val`: every member with that key takes the new value; if
/// there is none, the member is appended. All other members stay as they are.
pub open spec fn set_member(m: Seq<(Seq<char>, Seq<char>)>, key: Seq<char>, val: Seq<char>) -> Seq<(Seq<char>, Seq<char>)> {
    if exists|i: int| 0 <= i < m.len() && (#[trigger] m[i]).0 == key {
        Seq::new(m.len(), |i: int| if m[i].0 == key { (key, val) } else { m[i] })
    } else {
        m.push((key, val))
    }
}

/// The name a state is written under.
pub open spec fn state_name(s: SessionState) -> Seq<char> {
    match s {
        SessionState::Launching => "Launching"@,
        SessionState::Running => "Running"@,
        SessionState::Detached => "Detached"@,
        SessionState::Terminating => "Terminating"@,
        SessionState::Terminated => "Terminated"@,
    }
}

/// The members after a patch: the state, then the kill deadline, then the
/// display name, each only where the patch names it.
pub open spec fn patched_members(m: Seq<(Seq<char>, Seq<char>)>, p: PatchView) -> Seq<(Seq<char>, Seq<char>)> {
    let m1 = match p.state {
        Some(s) => set_member(m, "state"@, json_string_text(state_name(s))),
        None => m,
    };
    let m2 = match p.kill_deadline {
        DeadlinePatch::Keep => m1,
        DeadlinePatch::Clear => set_member(m1, "kill_deadline_unix_ms"@, "null"@),
        DeadlinePatch::Write(ms) => set_member(m1, "kill_deadline_unix_ms"@, decimal(ms as nat)),
    };
    match p.display_name {
        Some(n) => set_member(m2, "display_name"@, json_string_text(n)),
        None => m2,
    }
}

/// The patch rewrites at least one field.
pub open spec fn patch_names_a_field(p: PatchView) -> bool {
    p.state is Some || !(p.kill_deadline is Keep) || p.display_name is Some
}

/// The sidecar text after a patch. A `null` document becomes an object holding the
/// patched fields (or stays `null` if the patch names none); any other text that
/// is not a JSON object gives `None`.
pub open spec fn patched_sidecar_of(text: Seq<char>, p: PatchView) -> Option<Seq<char>> {
    match json_object_members(text) {
        Some(m) => json_pretty_object(patched_members(m, p)),
        None => if json_is_null(text) {
            if patch_names_a_field(p) {
                json_pretty_object(patched_members(Seq::empty(), p))
            } else {
                Some("null"@)
            }
        } else {
            None
        },
    }
}

fn state_text(s: SessionState) -> (r: String)
    ensures
        r@ == json_string_text(state_name(s)),
{
    let name = match s {
        SessionState::Launching => "Launching",
        SessionState::Running => "Running",
        SessionState::Detached => "Detached",
        SessionState::Terminating => "Terminating",
        SessionState::Terminated => "Terminated",
    };
    json_string_literal(name)
}

fn put_member(members: &mut Vec<(String, String)>, key: &str, val: String)
    ensures
        pairs_view(final(members)@) == set_member(pairs_view(old(members)@), key@, val@),
{
    let ghost orig = pairs_view(members@);
    let n = members.len();
    let mut found = false;
    let mut i: usize = 0;
    while i < n
        invariant
            n == members@.len(),
            orig.len() == n,
            0 <= i <= n,
            forall|j: int| 0 <= j < i ==> #[trigger] pairs_view(members@)[j] == (if orig[j].0 == key@ {
                (key@, val@)
            } else {
                orig[j]
            }),
            forall|j: int| i <= j < n ==> #[trigger] pairs_view(members@)[j] == orig[j],
            found <==> exists|j: int| 0 <= j < i && (#[trigger] orig[j]).0 == key@,
        decreases n - i,
    {
        proof {
            assert(pairs_view(members@)[i as int] == orig[i as int]);
        }
        let ghost prev = members@;
        if same_text(members[i].0.as_str(), key) {
            let v = val.clone();
            let k = String::from_str(key);
            members.set(i, (k, v));
            found = true;
            assert(pairs_view(members@) =~= pairs_view(prev).update(i as int, (key@, val@)));
        }
        i = i + 1;
    }
    if !found {
        let ghost prev = members@;
        let k = String::from_str(key);
        members.push((k, val));
        assert(pairs_view(members@) =~= pairs_view(prev).push((key@, val@)));
        assert(pairs_view(prev) =~= orig);
        assert(pairs_view(members@) =~= orig.push((key@, val@)));
    } else {
        assert(pairs_view(members@) =~= Seq::new(orig.len(), |j: int| if orig[j].0 == key@ { (key@, val@) } else { orig[j] }));
    }
}

/// The sidecar text with the fields a patch names rewritten and every other member
/// kept; a `null` document is treated as an empty object; `None` when the text is
/// neither a JSON object nor `null`.
pub fn patched_sidecar_text(text: &str, patch: &SidecarPatch) -> (r: Option<String>)
    ensures
        match r {
            Some(s) => patched_sidecar_of(text@, patch@) == Some(s@),
            None => patched_sidecar_of(text@, patch@) is None,
        },
{
    let mut members = match json_object_entries(text) {
        Some(m) => m,
        None => {
            if !json_null_text(text) {
                return None;
            }
            let names_a_field = patch.state.is_some() || patch.kill_deadline != DeadlinePatch::Keep
                || patch.display_name.is_some();
            if !names_a_field {
                return Some(String::from_str("null"));
            }
            let empty: Vec<(String, String)> = Vec::new();
            assert(pairs_view(empty@) =~= Seq::<(Seq<char>, Seq<char>)>::empty());
            empty
        },
    };
    match patch.state {
        Some(s) => {
            let v = state_text(s);
            put_member(&mut members, "state", v);
        },
        None => {},
    }
    match patch.kill_deadline {
        DeadlinePatch::Keep => {},
        DeadlinePatch::Clear => {
            put_member(&mut members, "kill_deadline_unix_ms", String::from_str("null"));
        },
        DeadlinePatch::Write(ms) => {
            let v = decimal_string(ms as u128);
            put_member(&mut members, "kill_deadline_unix_ms", v);
        },
    }
    match &patch.display_name {
        Some(n) => {
            let v = json_string_literal(n.as_str());
            put_member(&mut members, "display_name", v);
        },
        None => {},
    }
    json_object_pretty(&members)
}

/// A patch rewrites only the state, the kill deadline and the display name: every
/// other member of the sidecar keeps its place and its value.
pub proof fn lemma_patch_keeps_other_members(m: Seq<(Seq<char>, Seq<char>)>, p: PatchView, i: int)
    requires
        0 <= i < m.len(),
        m[i].0 != "state"@,
        m[i].0 != "kill_deadline_unix_ms"@,
        m[i].0 != "display_name"@,
    ensures
        patched_members(m, p).len() >= m.len(),
        patched_members(m, p)[i] == m[i],
{
    let m1 = match p.state {
        Some(s) => set_member(m, "state"@, json_string_text(state_name(s))),
        None => m,
    };
    let m2 = match p.kill_deadline {
        DeadlinePatch::Keep => m1,
        DeadlinePatch::Clear => set_member(m1, "kill_deadline_unix_ms"@, "null"@),
        DeadlinePatch::Write(ms) => set_member(m1, "kill_deadline_unix_ms"@, decimal(ms as nat)),
    };
    assert(m1.len() >= m.len() && m1[i] == m[i]);
    assert(m2.len() >= m.len() && m2[i] == m[i]);
}

} // verus!
