use vstd::prelude::*;
use vstd::string::StrSliceExecFns;
use vstd::string::StringExecFns;
use vstd::utf8::{char_is_scalar, encode_scalar, encode_utf8};

use crate::model::SessionError;

verus! {

/// Maximum byte length of a display name given to a rename.
pub const MAX_DISPLAY_NAME_BYTES: usize = 256;

/// Whether two texts are equal, character by character.
pub fn same_text(a: &str, b: &str) -> (r: bool)
    ensures
        r == (a@ == b@),
{
    let n = a.unicode_len();
    let m = b.unicode_len();
    if n != m {
        return false;
    }
    let mut i: usize = 0;
    while i < n
        invariant
            n == a@.len(),
            n == b@.len(),
            i <= n,
            forall|j: int| 0 <= j < i ==> a@[j] == b@[j],
        decreases n - i,
    {
        if a.get_char(i) != b.get_char(i) {
            return false;
        }
        i = i + 1;
    }
    assert(a@ =~= b@);
    true
}

/// The text of an optional string.
pub open spec fn opt_text(o: Option<String>) -> Option<Seq<char>> {
    match o {
        Some(s) => Some(s@),
        None => None,
    }
}

/// A copy of an optional string.
pub fn copy_opt(o: &Option<String>) -> (r: Option<String>)
    ensures
        r == *o,
{
    match o {
        Some(s) => Some(s.clone()),
        None => None,
    }
}

/// `format!("{:?}", s)`'s text for a string: the string in double quotes with
/// its special characters escaped.
pub uninterp spec fn debug_text(s: Seq<char>) -> Seq<char>;

/// `format!("{:?}", s)` for a string slice.
///
/// Claimed of std: the result is a function of the text alone. Its escaping rules
/// are not stated.
#[verifier::external_body]
fn debug_quoted(s: &str) -> (r: String)
    ensures
        r@ == debug_text(s@),
{
    format!("{:?}", s)
}

/// `format!("{:?}", path)`'s text for a path: the path in double quotes, escaped as
/// `Path`'s `Debug` escapes it.
pub uninterp spec fn path_debug_text(s: Seq<char>) -> Seq<char>;

/// `format!("{:?}", std::path::Path::new(s))`.
///
/// Claimed of std: the result is a function of the path text alone. Its escaping
/// rules are not stated.
#[verifier::external_body]
fn path_debug_quoted(s: &str) -> (r: String)
    ensures
        r@ == path_debug_text(s@),
{
    format!("{:?}", std::path::Path::new(s))
}

/// A path in double quotes, as `{:?}` shows a `Path`.
pub fn quoted_path(s: &str) -> (r: String)
    ensures
        r@ == path_debug_text(s@),
{
    path_debug_quoted(s)
}

/// A string in double quotes with its special characters escaped, as `{:?}` shows it.
pub fn quoted(s: &str) -> (r: String)
    ensures
        r@ == debug_text(s@),
{
    debug_quoted(s)
}

/// The reason a spawn gives for an identifier that is not a UUID.
pub open spec fn invalid_id_reason(session_id: Seq<char>) -> Seq<char> {
    "session_id is not a valid UUID: "@ + debug_text(session_id) + "; path-traversal injection rejected"@
}

/// Exec form of `invalid_id_reason`.
pub fn invalid_id_message(session_id: &str) -> (r: String)
    ensures
        r@ == invalid_id_reason(session_id@),
{
    let mut r = String::from_str("session_id is not a valid UUID: ");
    let q = debug_quoted(session_id);
    r.append(q.as_str());
    r.append("; path-traversal injection rejected");
    r
}

// ---------------------------------------------------------------------------
// Session identifiers
// ---------------------------------------------------------------------------

/// An ASCII hexadecimal digit, of either case.
pub open spec fn is_hex_char(c: char) -> bool {
    ('0' <= c && c <= '9') || ('a' <= c && c <= 'f') || ('A' <= c && c <= 'F')
}

/// The canonical 8-4-4-4-12 form: 36 characters, hyphens at 8, 13, 18 and 23,
/// hexadecimal digits elsewhere.
pub open spec fn is_hyphenated_uuid(s: Seq<char>) -> bool {
    &&& s.len() == 36
    &&& s[8] == '-' && s[13] == '-' && s[18] == '-' && s[23] == '-'
    &&& forall|i: int|
        0 <= i < 36 && i != 8 && i != 13 && i != 18 && i != 23 ==> #[trigger] is_hex_char(s[i])
}

/// One character of the `urn:uuid:` prefix, compared without regard to ASCII case.
pub open spec fn urn_prefix_char_matches(c: char, i: int) -> bool {
    let lower = "urn:uuid:"@[i];
    let upper = "URN:UUID:"@[i];
    c == lower || c == upper
}

/// The textual forms of a UUID that the `uuid` crate accepts: 32 hexadecimal
/// digits; the hyphenated form; the hyphenated form in braces; or the hyphenated
/// form behind a `urn:uuid:` prefix in any ASCII case.
pub open spec fn uuid_text(s: Seq<char>) -> bool {
    ||| (s.len() == 32 && forall|i: int| 0 <= i < 32 ==> #[trigger] is_hex_char(s[i]))
    ||| is_hyphenated_uuid(s)
    ||| (s.len() == 38 && s[0] == '{' && s[37] == '}' && is_hyphenated_uuid(s.subrange(1, 37)))
    ||| (s.len() == 45 && (forall|i: int| 0 <= i < 9 ==> #[trigger] urn_prefix_char_matches(s[i], i))
        && is_hyphenated_uuid(s.subrange(9, 45)))
}

/// `uuid::Uuid::parse_str`, reduced to whether it succeeds.
///
/// Claimed of the `uuid` crate: the parser accepts exactly the four textual forms of
/// `uuid_text` (it dispatches on the byte length 32, 36, 38 or 45, requires the
/// hyphens, braces or case-insensitive `urn:uuid:` prefix at their places, and
/// decodes every remaining byte as an ASCII hexadecimal digit). Every accepted
/// byte is ASCII, so characters and bytes coincide on accepted input.
#[verifier::external_body]
fn uuid_parse_ok(s: &str) -> (ok: bool)
    ensures
        ok == uuid_text(s@),
{
    uuid::Uuid::parse_str(s).is_ok()
}

/// A lowercase hexadecimal digit.
pub open spec fn is_lower_hex_char(c: char) -> bool {
    ('0' <= c && c <= '9') || ('a' <= c && c <= 'f')
}

/// The text of a random (version 4, RFC 4122 variant) UUID: hyphenated, lowercase,
/// `4` as the version digit and `8`, `9`, `a` or `b` as the variant digit.
pub open spec fn is_v4_text(s: Seq<char>) -> bool {
    &&& is_hyphenated_uuid(s)
    &&& forall|i: int|
        0 <= i < 36 && i != 8 && i != 13 && i != 18 && i != 23 ==> #[trigger] is_lower_hex_char(s[i])
    &&& s[14] == '4'
    &&& (s[19] == '8' || s[19] == '9' || s[19] == 'a' || s[19] == 'b')
}

/// `uuid::Uuid::new_v4` rendered with `to_string`.
///
/// Claimed of the `uuid` crate: `new_v4` sets the version to 4 and the variant to
/// RFC 4122, and `Display` writes the lowercase hyphenated form. Which UUID comes
/// out is random.
#[verifier::external_body]
fn new_v4_text() -> (s: String)
    ensures
        is_v4_text(s@),
{
    uuid::Uuid::new_v4().to_string()
}

/// Whether `session_id` is a UUID in one of the accepted textual forms. Every
/// operation rejects an identifier that is not, before building any path from it.
pub fn is_valid_session_id(session_id: &str) -> (ok: bool)
    ensures
        ok == uuid_text(session_id@),
{
    uuid_parse_ok(session_id)
}

/// A fresh random session identifier in the hyphenated form.
pub fn fresh_session_id() -> (s: String)
    ensures
        is_v4_text(s@),
        uuid_text(s@),
{
    new_v4_text()
}

// ---------------------------------------------------------------------------
// Display names
// ---------------------------------------------------------------------------

/// A control code point: general category Cc, that is U+0000..=U+001F and
/// U+007F..=U+009F (what `char::is_control` reports).
pub open spec fn is_control(c: char) -> bool {
    (c <= '\u{1f}') || ('\u{7f}' <= c && c <= '\u{9f}')
}

/// A character a display name may not hold: a control character, `/` or `\`.
pub open spec fn is_forbidden_name_char(c: char) -> bool {
    is_control(c) || c == '/' || c == '\\'
}

/// Exec form of `is_forbidden_name_char`.
pub fn forbidden_name_char(c: char) -> (r: bool)
    ensures
        r == is_forbidden_name_char(c),
{
    c <= '\u{1f}' || ('\u{7f}' <= c && c <= '\u{9f}') || c == '/' || c == '\\'
}

/// The byte length of a name in UTF-8.
pub open spec fn utf8_len(s: Seq<char>) -> nat {
    encode_utf8(s).len()
}

/// Which rule a rejected display name broke, in the order the rules are checked.
pub open spec fn display_name_rejection(name: Seq<char>) -> Option<Seq<char>> {
    if name.len() == 0 {
        Some("name must not be empty"@)
    } else if utf8_len(name) > MAX_DISPLAY_NAME_BYTES {
        Some("name exceeds 256-byte limit"@)
    } else if exists|i: int| 0 <= i < name.len() && #[trigger] is_forbidden_name_char(name[i]) {
        Some("name contains forbidden character (control char, '/', or '\\')"@)
    } else {
        None
    }
}

/// Checks a new display name: it must be non-empty, at most 256 bytes of UTF-8, and
/// hold no control character, `/` or `\`.
pub fn validate_display_name(name: &str) -> (r: Result<(), SessionError>)
    ensures
        match display_name_rejection(name@) {
            None => r is Ok,
            Some(reason) => r matches Err(SessionError::InvalidSessionName { reason: got })
                && got@ == reason,
        },
{
    let n = name.unicode_len();
    if n == 0 {
        return Err(SessionError::InvalidSessionName { reason: String::from_str("name must not be empty") });
    }
    let bytes = utf8_byte_len(name);
    if bytes > 256 {
        return Err(SessionError::InvalidSessionName { reason: String::from_str("name exceeds 256-byte limit") });
    }
    let mut i: usize = 0;
    while i < n
        invariant
            n == name@.len(),
            n > 0,
            utf8_len(name@) <= MAX_DISPLAY_NAME_BYTES,
            i <= n,
            forall|j: int| 0 <= j < i ==> !is_forbidden_name_char(#[trigger] name@[j]),
        decreases n - i,
    {
        let c = name.get_char(i);
        if forbidden_name_char(c) {
            assert(is_forbidden_name_char(name@[i as int]));
            return Err(SessionError::InvalidSessionName {
                reason: String::from_str("name contains forbidden character (control char, '/', or '\\')"),
            });
        }
        i = i + 1;
    }
    Ok(())
}

/// The UTF-8 width of one character: what `char::len_utf8` reports.
fn char_utf8_width(c: char) -> (w: u128)
    ensures
        w == encode_scalar(c as u32).len(),
        1 <= w <= 4,
{
    proof {
        char_is_scalar(c);
    }
    let v = c as u32;
    if v <= 0x7f {
        1
    } else if v <= 0x7ff {
        2
    } else if v <= 0xffff {
        3
    } else {
        4
    }
}

/// The byte length of `s` in UTF-8 (what `str::len` reports), computed from its
/// characters.
pub fn utf8_byte_len(s: &str) -> (total: u128)
    ensures
        total == utf8_len(s@),
{
    let n = s.unicode_len();
    let mut total: u128 = 0;
    let mut i: usize = n;
    while i > 0
        invariant
            n == s@.len(),
            i <= n,
            total == encode_utf8(s@.skip(i as int)).len(),
            total <= 4 * (n - i),
        decreases i,
    {
        i = i - 1;
        let c = s.get_char(i);
        let w = char_utf8_width(c);
        proof {
            let tail = s@.skip(i as int);
            assert(tail.drop_first() =~= s@.skip(i + 1));
            assert(tail[0] == c);
        }
        total = total + w;
    }
    assert(s@.skip(0) =~= s@);
    total
}

// ---------------------------------------------------------------------------
// Decimal rendering
// ---------------------------------------------------------------------------

/// The decimal digit character of `d`.
pub open spec fn digit_char(d: nat) -> char {
    if d == 0 { '0' } else if d == 1 { '1' } else if d == 2 { '2' } else if d == 3 { '3' }
    else if d == 4 { '4' } else if d == 5 { '5' } else if d == 6 { '6' } else if d == 7 { '7' }
    else if d == 8 { '8' } else { '9' }
}

/// The decimal representation of `n`, without leading zeros.
pub open spec fn decimal(n: nat) -> Seq<char>
    decreases n,
{
    if n < 10 {
        seq![digit_char(n)]
    } else {
        decimal(n / 10) + seq![digit_char(n % 10)]
    }
}

fn digit_str(d: u128) -> (s: &'static str)
    requires
        d < 10,
    ensures
        s@ == seq![digit_char(d as nat)],
{
    proof {
        reveal_strlit("0");
        reveal_strlit("1");
        reveal_strlit("2");
        reveal_strlit("3");
        reveal_strlit("4");
        reveal_strlit("5");
        reveal_strlit("6");
        reveal_strlit("7");
        reveal_strlit("8");
        reveal_strlit("9");
    }
    if d == 0 { "0" } else if d == 1 { "1" } else if d == 2 { "2" } else if d == 3 { "3" }
    else if d == 4 { "4" } else if d == 5 { "5" } else if d == 6 { "6" } else if d == 7 { "7" }
    else if d == 8 { "8" } else { "9" }
}

/// Renders `n` in decimal.
pub fn decimal_string(n: u128) -> (s: String)
    ensures
        s@ == decimal(n as nat),
    decreases n,
{
    if n < 10 {
        String::from_str(digit_str(n))
    } else {
        let mut s = decimal_string(n / 10);
        s.append(digit_str(n % 10));
        s
    }
}

// ---------------------------------------------------------------------------
// Per-session file names
// ---------------------------------------------------------------------------

/// Name of a session's sidecar file inside the runtime directory.
pub open spec fn sidecar_file_name_of(session_id: Seq<char>) -> Seq<char> {
    "session-"@ + session_id + ".json"@
}

/// Name of a session-host's control socket inside the runtime directory.
pub open spec fn socket_file_name_of(session_id: Seq<char>) -> Seq<char> {
    "session-"@ + session_id + ".sock"@
}

/// `session-<id>.json`.
pub fn sidecar_file_name(session_id: &str) -> (s: String)
    ensures
        s@ == sidecar_file_name_of(session_id@),
{
    let mut s = String::from_str("session-");
    s.append(session_id);
    s.append(".json");
    s
}

/// `session-<id>.sock`.
pub fn socket_file_name(session_id: &str) -> (s: String)
    ensures
        s@ == socket_file_name_of(session_id@),
{
    let mut s = String::from_str("session-");
    s.append(session_id);
    s.append(".sock");
    s
}

/// The text of `std::path::Path::join` of a directory and a file name.
pub uninterp spec fn joined_path(dir: Seq<char>, file: Seq<char>) -> Seq<char>;

/// A directory text that does not end in a separator, joined with a relative
/// file name: the two with one `/` between them.
pub open spec fn plain_join(dir: Seq<char>, file: Seq<char>) -> bool {
    &&& dir.len() > 0
    &&& dir.last() != '/'
    &&& file.len() > 0
    &&& file[0] != '/'
}

/// `std::path::Path::new(dir).join(file)`, converted back to text.
///
/// Claimed: the result is a function of the two texts, and pushing a relative
/// file name onto a directory that does not end in a separator adds one `/`
/// between them (`PathBuf::push`: "pushing a relative path extends the existing
/// path"). Other placements of the separator are not stated.
#[verifier::external_body]
fn join_path(dir: &str, file: &str) -> (r: String)
    ensures
        r@ == joined_path(dir@, file@),
        plain_join(dir@, file@) ==> r@ == dir@ + "/"@ + file@,
{
    std::path::Path::new(dir).join(file).to_string_lossy().into_owned()
}

/// The path of a session's sidecar: `<runtime_dir>/session-<id>.json`.
pub fn sidecar_path(runtime_dir: &str, session_id: &str) -> (r: String)
    ensures
        r@ == joined_path(runtime_dir@, sidecar_file_name_of(session_id@)),
        runtime_dir@.len() > 0 && runtime_dir@.last() != '/' ==> r@ == runtime_dir@ + "/"@
            + sidecar_file_name_of(session_id@),
{
    let file = sidecar_file_name(session_id);
    proof {
        reveal_strlit("session-");
    }
    join_path(runtime_dir, file.as_str())
}

/// The path of a session-host's socket: `<runtime_dir>/session-<id>.sock`.
pub fn socket_path(runtime_dir: &str, session_id: &str) -> (r: String)
    ensures
        r@ == joined_path(runtime_dir@, socket_file_name_of(session_id@)),
        runtime_dir@.len() > 0 && runtime_dir@.last() != '/' ==> r@ == runtime_dir@ + "/"@
            + socket_file_name_of(session_id@),
{
    let file = socket_file_name(session_id);
    proof {
        reveal_strlit("session-");
    }
    join_path(runtime_dir, file.as_str())
}

// ---------------------------------------------------------------------------
// Project names
// ---------------------------------------------------------------------------

/// What `std::path::Path::file_name` gives for a path, as text.
pub uninterp spec fn path_file_name(path: Seq<char>) -> Option<Seq<char>>;

/// `std::path::Path::file_name` of `path`, converted to a `String`.
///
/// Claimed: the result is a function of the path text alone (the final normal
/// component, or none when the path ends in `..` or has no component). Nothing
/// more is stated of it.
#[verifier::external_body]
fn file_name_of(path: &str) -> (r: Option<String>)
    ensures
        match r {
            Some(n) => path_file_name(path@) == Some(n@),
            None => path_file_name(path@) is None,
        },
{
    std::path::Path::new(path).file_name().and_then(|n| n.to_str()).map(|n| n.to_string())
}

/// The last component of a project root, used as the project's short name.
pub fn project_basename(project_root: &str) -> (r: Option<String>)
    ensures
        match r {
            Some(n) => path_file_name(project_root@) == Some(n@),
            None => path_file_name(project_root@) is None,
        },
{
    file_name_of(project_root)
}

/// The default display name of a session: `<harness_id> — <project basename>`, with
/// `unknown` in place of a missing basename.
pub open spec fn default_display_name_of(harness_id: Seq<char>, project_root: Seq<char>) -> Seq<char> {
    let base = match path_file_name(project_root) {
        Some(b) => b,
        None => "unknown"@,
    };
    harness_id + " \u{2014} "@ + base
}

/// Exec form of `default_display_name_of`.
pub fn default_display_name(harness_id: &str, project_root: &str) -> (s: String)
    ensures
        s@ == default_display_name_of(harness_id@, project_root@),
{
    let base = match project_basename(project_root) {
        Some(b) => b,
        None => String::from_str("unknown"),
    };
    let mut s = String::from_str(harness_id);
    s.append(" \u{2014} ");
    s.append(base.as_str());
    s
}

} // verus!
