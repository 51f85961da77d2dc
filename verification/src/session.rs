//! Where a server's session token is stored and when stored content counts
//! as a token. Reading and writing the files is the caller's job; this
//! module decides names, sources and validity.
use vstd::prelude::*;
use vstd::utf8::encode_utf8;
use crate::emoji::{utf8_bytes, utf8_len};
use crate::text::{
    chars_of, concat, has_prefix, has_suffix, owned, seq_eq, string_from_chars, trim, trim_chars,
    trim_end_char, trim_end_char_exec,
};

verus! {

/// `c` as `char::to_ascii_lowercase` maps it.
pub open spec fn ascii_lower(c: char) -> char {
    if 'A' <= c && c <= 'Z' {
        ((c as u32) + 32) as char
    } else {
        c
    }
}

pub open spec fn ascii_lower_all(s: Seq<char>) -> Seq<char> {
    Seq::new(s.len(), |i: int| ascii_lower(s[i]))
}

/// The server URL as it keys the session file: trimmed, without trailing
/// slashes, ASCII letters in lowercase.
pub open spec fn normalized_server(url: Seq<char>) -> Seq<char> {
    ascii_lower_all(trim_end_char(trim(url), '/'))
}

pub open spec fn fnv_offset() -> u64 {
    0xcbf29ce484222325u64
}

pub open spec fn fnv_prime() -> u64 {
    0x100000001b3u64
}

/// 64-bit FNV-1a over `bytes`.
pub open spec fn fnv1a(bytes: Seq<u8>) -> u64
    decreases bytes.len(),
{
    if bytes.len() == 0 {
        fnv_offset()
    } else {
        let h = fnv1a(bytes.drop_last()) ^ (bytes.last() as u64);
        ((h as nat * fnv_prime() as nat) % 0x1_0000_0000_0000_0000) as u64
    }
}

pub open spec fn hex_char(d: nat) -> char {
    if d < 10 {
        ((d + 48) as u32) as char
    } else {
        ((d - 10 + 97) as u32) as char
    }
}

/// The last `n` hexadecimal digits of `h`, lowercase, most significant first.
pub open spec fn hex_digits(h: nat, n: nat) -> Seq<char>
    decreases n,
{
    if n == 0 {
        Seq::empty()
    } else {
        hex_digits(h / 16, (n - 1) as nat).push(hex_char(h % 16))
    }
}

/// The key naming a server's session file: FNV-1a of the normalized URL's
/// UTF-8 bytes, as 16 lowercase hex digits.
pub open spec fn spec_server_scope_key(url: Seq<char>) -> Seq<char> {
    hex_digits(fnv1a(encode_utf8(normalized_server(url))) as nat, 16)
}

pub(crate) fn ascii_lower_exec(c: char) -> (r: char)
    ensures
        r == ascii_lower(c),
{
    if 'A' <= c && c <= 'Z' {
        ((c as u8) + 32) as char
    } else {
        c
    }
}

fn hex_char_exec(d: u64) -> (c: char)
    requires
        d < 16,
    ensures
        c == hex_char(d as nat),
{
    if d < 10 {
        ((d as u8) + 48) as char
    } else {
        ((d as u8) - 10 + 97) as char
    }
}

fn hex_digits_exec(h: u64, n: usize) -> (r: Vec<char>)
    ensures
        r@ == hex_digits(h as nat, n as nat),
    decreases n,
{
    if n == 0 {
        Vec::new()
    } else {
        let mut v = hex_digits_exec(h / 16, n - 1);
        v.push(hex_char_exec(h % 16));
        v
    }
}

fn fnv1a_exec(bytes: &[u8]) -> (r: u64)
    ensures
        r == fnv1a(bytes@),
{
    let mut hash: u64 = 0xcbf29ce484222325;
    let mut i: usize = 0;
    while i < bytes.len()
        invariant
            0 <= i <= bytes@.len(),
            hash == fnv1a(bytes@.subrange(0, i as int)),
        decreases bytes@.len() - i,
    {
        proof {
            let pre = bytes@.subrange(0, i as int);
            let post = bytes@.subrange(0, i + 1);
            assert(post.drop_last() =~= pre);
            assert(post.last() == bytes@[i as int]);
        }
        hash = hash ^ (bytes[i] as u64);
        hash = hash.wrapping_mul(0x100000001b3);
        i = i + 1;
    }
    assert(bytes@.subrange(0, bytes@.len() as int) =~= bytes@);
    hash
}

/// The key naming the session file of the server at `server_url`.
pub fn server_scope_key(server_url: &str) -> (r: String)
    ensures
        r@ == spec_server_scope_key(server_url@),
{
    let raw = chars_of(server_url);
    let t = trim_chars(raw.as_slice());
    let u = trim_end_char_exec(t.as_slice(), '/');
    let mut low: Vec<char> = Vec::new();
    let mut i: usize = 0;
    while i < u.len()
        invariant
            0 <= i <= u@.len(),
            low@ == ascii_lower_all(u@.subrange(0, i as int)),
        decreases u@.len() - i,
    {
        low.push(ascii_lower_exec(u[i]));
        proof {
            assert(low@ =~= ascii_lower_all(u@.subrange(0, i + 1)));
        }
        i = i + 1;
    }
    assert(u@.subrange(0, u@.len() as int) =~= u@);
    let normalized = string_from_chars(low.as_slice());
    let bytes = normalized.as_str().as_bytes();
    let h = fnv1a_exec(bytes);
    let digits = hex_digits_exec(h, 16);
    string_from_chars(digits.as_slice())
}

/// `char::is_control`: the C0 and C1 control characters.
pub open spec fn is_control(c: char) -> bool {
    (c as u32) <= 0x1f || (0x7f <= (c as u32) && (c as u32) <= 0x9f)
}

/// A control character other than newline, carriage return and tab.
pub open spec fn is_bad_control(c: char) -> bool {
    is_control(c) && c != '\n' && c != '\r' && c != '\t'
}

/// The token stored in a session file whose content is `content`: the
/// trimmed content, unless it is empty, not between 8 and 256 bytes long in
/// UTF-8, or holds a control character other than newline, carriage return
/// and tab.
pub open spec fn spec_validate_session_token(content: Seq<char>) -> Option<Seq<char>> {
    let t = trim(content);
    if t.len() == 0 {
        None
    } else if utf8_bytes(t) < 8 || utf8_bytes(t) > 256 {
        None
    } else if exists|i: int| 0 <= i < t.len() && is_bad_control(#[trigger] t[i]) {
        None
    } else {
        Some(t)
    }
}

/// Why stored content is not a usable token.
#[derive(Debug, Clone, Copy, PartialEq, Eq, Structural)]
pub enum TokenProblem {
    Empty,
    BadLength,
    ControlCharacters,
}

proof fn lemma_utf8_bytes_push(s: Seq<char>, c: char)
    ensures
        utf8_bytes(s.push(c)) == utf8_bytes(s) + utf8_len(c),
{
    assert(s.push(c).drop_last() =~= s);
}

proof fn lemma_utf8_bytes_prefix(s: Seq<char>, k: int)
    requires
        0 <= k <= s.len(),
    ensures
        utf8_bytes(s.subrange(0, k)) <= utf8_bytes(s),
    decreases s.len() - k,
{
    if k < s.len() {
        lemma_utf8_bytes_prefix(s, k + 1);
        lemma_utf8_bytes_push(s.subrange(0, k), s[k]);
        assert(s.subrange(0, k + 1) =~= s.subrange(0, k).push(s[k]));
    } else {
        assert(s.subrange(0, k) =~= s);
    }
}

/// Check the content of a session file.
pub fn validate_session_token(content: &str) -> (r: Result<String, TokenProblem>)
    ensures
        match spec_validate_session_token(content@) {
            Some(t) => r matches Ok(s) && s@ == t,
            None => r is Err,
        },
        r matches Err(p) ==> (p is Empty <==> trim(content@).len() == 0),
{
    let raw = chars_of(content);
    let t = trim_chars(raw.as_slice());
    if t.len() == 0 {
        return Err(TokenProblem::Empty);
    }
    let mut bytes: usize = 0;
    let mut bad = false;
    let mut i: usize = 0;
    while i < t.len()
        invariant
            0 <= i <= t@.len(),
            bytes == utf8_bytes(t@.subrange(0, i as int)),
            bytes <= 256,
            t@ == trim(content@),
            t@.len() > 0,
            bad == (exists|k: int| 0 <= k < i && is_bad_control(#[trigger] t@[k])),
        decreases t@.len() - i,
    {
        let c = t[i];
        let u = c as u32;
        let w: usize = if u < 0x80 {
            1
        } else if u < 0x800 {
            2
        } else if u < 0x10000 {
            3
        } else {
            4
        };
        proof {
            lemma_utf8_bytes_push(t@.subrange(0, i as int), c);
            assert(t@.subrange(0, i + 1) =~= t@.subrange(0, i as int).push(c));
        }
        bytes = bytes + w;
        if bytes > 256 {
            proof {
                lemma_utf8_bytes_prefix(t@, i + 1);
            }
            return Err(TokenProblem::BadLength);
        }
        if (u <= 0x1f || (0x7f <= u && u <= 0x9f)) && c != '\n' && c != '\r' && c != '\t' {
            bad = true;
        }
        i = i + 1;
    }
    assert(t@.subrange(0, t@.len() as int) =~= t@);
    if bytes < 8 || bytes > 256 {
        return Err(TokenProblem::BadLength);
    }
    if bad {
        return Err(TokenProblem::ControlCharacters);
    }
    Ok(string_from_chars(t.as_slice()))
}

/// Whether `file_name`, found in the session directory, is a leftover that
/// saving a token removes: temporary, backup and old copies, and the JSON
/// sessions of earlier versions. The current session file and the files of
/// other servers stay.
pub open spec fn spec_is_stale_session_file(file_name: Seq<char>, current: Seq<char>) -> bool {
    file_name != current && (file_name == "session.tmp"@ || file_name == "session.bak"@
        || file_name == "session.old"@ || (has_prefix(file_name, "session_"@) && (has_suffix(
        file_name,
        ".tmp"@,
    ) || has_suffix(file_name, ".bak"@) || has_suffix(file_name, ".old"@) || has_suffix(
        file_name,
        ".json"@,
    ))))
}

fn is(s: &Vec<char>, lit: &str) -> (r: bool)
    ensures
        r == (s@ == lit@),
{
    let l = chars_of(lit);
    seq_eq(s.as_slice(), l.as_slice())
}

fn ends(s: &Vec<char>, lit: &str) -> (r: bool)
    ensures
        r == has_suffix(s@, lit@),
{
    let l = chars_of(lit);
    crate::text::ends_with(s.as_slice(), l.as_slice())
}

/// Whether saving a token removes `file_name` from the session directory.
pub fn is_stale_session_file(file_name: &str, current_file_name: &str) -> (r: bool)
    ensures
        r == spec_is_stale_session_file(file_name@, current_file_name@),
{
    if crate::text::str_eq(file_name, current_file_name) {
        return false;
    }
    let f = chars_of(file_name);
    let prefix = chars_of("session_");
    is(&f, "session.tmp") || is(&f, "session.bak") || is(&f, "session.old") || (
    crate::text::starts_with(f.as_slice(), prefix.as_slice()) && (ends(&f, ".tmp") || ends(
        &f,
        ".bak",
    ) || ends(&f, ".old") || ends(&f, ".json")))
}

/// `dir` joined with the relative file name `name`.
pub open spec fn join_path(dir: Seq<char>, name: Seq<char>) -> Seq<char> {
    if dir.len() == 0 {
        name
    } else if dir.last() == '/' {
        dir + name
    } else {
        dir + "/"@ + name
    }
}

/// Join a directory and a relative file name.
pub fn join_path_exec(dir: &str, name: &str) -> (r: String)
    ensures
        r@ == join_path(dir@, name@),
{
    proof {
        reveal_strlit("/");
    }
    let d = chars_of(dir);
    let n = chars_of(name);
    if d.len() == 0 {
        return string_from_chars(n.as_slice());
    }
    if d[d.len() - 1] == '/' {
        let all = concat(d.as_slice(), n.as_slice());
        return string_from_chars(all.as_slice());
    }
    let slash = chars_of("/");
    let a = concat(d.as_slice(), slash.as_slice());
    let all = concat(a.as_slice(), n.as_slice());
    string_from_chars(all.as_slice())
}

/// Which file a token is read from.
#[derive(Debug, Clone, Copy, PartialEq, Eq, Structural)]
pub enum SessionSource {
    /// The server-scoped file.
    Scoped,
    /// The shared file of earlier versions; a token read from it is moved
    /// to the scoped file.
    Legacy,
}

/// Session token storage for one server: `session_<key>` in the Fido
/// directory, falling back to the shared legacy `session` file.
#[derive(Debug)]
pub struct SessionStore {
    pub fido_dir: String,
    pub file_name: String,
    pub legacy_file_name: Option<String>,
}

impl SessionStore {
    /// The store for `server_url` inside `fido_dir`.
    pub fn for_server_in_dir(fido_dir: String, server_url: &str) -> (s: Self)
        ensures
            s.fido_dir@ == fido_dir@,
            s.file_name@ == "session_"@ + spec_server_scope_key(server_url@),
            s.legacy_file_name matches Some(l) && l@ == "session"@,
    {
        let key = server_scope_key(server_url);
        let p = chars_of("session_");
        let k = chars_of(key.as_str());
        let name = concat(p.as_slice(), k.as_slice());
        SessionStore {
            fido_dir,
            file_name: string_from_chars(name.as_slice()),
            legacy_file_name: Some(owned("session")),
        }
    }

    /// Path of the server-scoped file.
    pub fn file_path(&self) -> (r: String)
        ensures
            r@ == join_path(self.fido_dir@, self.file_name@),
    {
        join_path_exec(self.fido_dir.as_str(), self.file_name.as_str())
    }

    /// Path of the legacy file, if any.
    pub fn legacy_file_path(&self) -> (r: Option<String>)
        ensures
            match self.legacy_file_name {
                Some(l) => r matches Some(p) && p@ == join_path(self.fido_dir@, l@),
                None => r is None,
            },
    {
        match &self.legacy_file_name {
            Some(l) => Some(join_path_exec(self.fido_dir.as_str(), l.as_str())),
            None => None,
        }
    }

    /// Where to read the token from, given which files exist: the scoped file
    /// first, then the legacy one.
    pub fn load_source(&self, scoped_exists: bool, legacy_exists: bool) -> (r: Option<
        SessionSource,
    >)
        ensures
            r == (if scoped_exists {
                Some(SessionSource::Scoped)
            } else if self.legacy_file_name is Some && legacy_exists {
                Some(SessionSource::Legacy)
            } else {
                None
            }),
    {
        if scoped_exists {
            Some(SessionSource::Scoped)
        } else if self.legacy_file_name.is_some() && legacy_exists {
            Some(SessionSource::Legacy)
        } else {
            None
        }
    }
}

} // verus!
