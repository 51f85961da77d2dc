//! Emoji shortcodes (`:smile:`) and character counting for posts.
use vstd::prelude::*;
use crate::text::{chars_of, concat, is_whitespace, is_ws, string_from_chars};

verus! {

/// Number of characters of `text`; an emoji written as one code point
/// counts as one toward the 280-character limit.
pub fn count_characters(text: &str) -> (r: usize)
    ensures
        r == text@.len(),
{
    let v = chars_of(text);
    v.len()
}

/// The emoji with GitHub shortcode `code`, as `emojis::get_by_shortcode`
/// finds it in the crate's fixed table.
pub uninterp spec fn shortcode_emoji(code: Seq<char>) -> Option<Seq<char>>;

/// `emojis::get_by_shortcode` followed by `Emoji::as_str`.
#[verifier::external_body]
fn lookup_shortcode(code: &str) -> (r: Option<String>)
    ensures
        match r {
            Some(e) => shortcode_emoji(code@) == Some(e@),
            None => shortcode_emoji(code@) is None,
        },
{
    emojis::get_by_shortcode(code).map(|e| e.as_str().to_string())
}

/// Bytes of `c` in UTF-8.
pub open spec fn utf8_len(c: char) -> nat {
    if (c as u32) < 0x80 {
        1
    } else if (c as u32) < 0x800 {
        2
    } else if (c as u32) < 0x10000 {
        3
    } else {
        4
    }
}

/// Bytes of `s` in UTF-8 (`String::len`).
pub open spec fn utf8_bytes(s: Seq<char>) -> nat
    decreases s.len(),
{
    if s.len() == 0 {
        0
    } else {
        utf8_bytes(s.drop_last()) + utf8_len(s.last())
    }
}

/// Reading a shortcode after a `:`: characters are collected until a closing
/// `:` (consumed), whitespace, or a point where the collected code already
/// exceeds 30 bytes. Yields the code, whether it was closed, and the input
/// left over.
pub open spec fn scan(rest: Seq<char>, code: Seq<char>) -> (Seq<char>, bool, Seq<char>)
    decreases rest.len(),
{
    if rest.len() == 0 {
        (code, false, rest)
    } else if rest[0] == ':' {
        (code, true, rest.drop_first())
    } else if is_ws(rest[0]) || utf8_bytes(code) > 30 {
        (code, false, rest)
    } else {
        scan(rest.drop_first(), code.push(rest[0]))
    }
}

pub proof fn lemma_scan_shrinks(rest: Seq<char>, code: Seq<char>)
    ensures
        scan(rest, code).2.len() <= rest.len(),
    decreases rest.len(),
{
    if rest.len() > 0 && rest[0] != ':' && !(is_ws(rest[0]) || utf8_bytes(code) > 30) {
        lemma_scan_shrinks(rest.drop_first(), code.push(rest[0]));
    }
}

/// The text with every known `:shortcode:` replaced by its emoji; unknown
/// or unterminated shortcodes are kept as written.
pub open spec fn spec_parse_emoji(s: Seq<char>) -> Seq<char>
    decreases s.len(),
{
    if s.len() == 0 {
        Seq::empty()
    } else if s[0] != ':' {
        seq![s[0]] + spec_parse_emoji(s.drop_first())
    } else {
        let (code, closed, left) = scan(s.drop_first(), Seq::empty());
        proof {
            lemma_scan_shrinks(s.drop_first(), Seq::empty());
        }
        let piece = if closed && code.len() > 0 {
            match shortcode_emoji(code) {
                Some(e) => e,
                None => seq![':'] + code + seq![':'],
            }
        } else {
            seq![':'] + code
        };
        piece + spec_parse_emoji(left)
    }
}

fn char_utf8_len(c: char) -> (r: usize)
    ensures
        r == utf8_len(c),
{
    let u = c as u32;
    if u < 0x80 {
        1
    } else if u < 0x800 {
        2
    } else if u < 0x10000 {
        3
    } else {
        4
    }
}

proof fn lemma_utf8_bytes_push(s: Seq<char>, c: char)
    ensures
        utf8_bytes(s.push(c)) == utf8_bytes(s) + utf8_len(c),
{
    assert(s.push(c).drop_last() =~= s);
}

/// Whether `s` takes fewer than `limit` bytes in UTF-8.
pub fn utf8_bytes_below(s: &[char], limit: usize) -> (r: bool)
    ensures
        r == (utf8_bytes(s@) < limit),
{
    let mut sum: usize = 0;
    let mut i: usize = 0;
    while i < s.len()
        invariant
            0 <= i <= s@.len(),
            sum == (if utf8_bytes(s@.subrange(0, i as int)) < limit {
                utf8_bytes(s@.subrange(0, i as int))
            } else {
                limit as nat
            }),
        decreases s@.len() - i,
    {
        proof {
            lemma_utf8_bytes_push(s@.subrange(0, i as int), s@[i as int]);
            assert(s@.subrange(0, i as int).push(s@[i as int]) =~= s@.subrange(0, i + 1));
        }
        let l = char_utf8_len(s[i]);
        if sum >= limit || l >= limit - sum {
            sum = limit;
        } else {
            sum = sum + l;
        }
        i = i + 1;
    }
    proof {
        assert(s@.subrange(0, s@.len() as int) =~= s@);
    }
    sum < limit
}

/// Read a shortcode starting at `start` (just after a `:`).
fn scan_exec(s: &[char], start: usize) -> (r: (Vec<char>, bool, usize))
    requires
        start <= s@.len(),
    ensures
        start <= r.2 <= s@.len(),
        scan(s@.subrange(start as int, s@.len() as int), Seq::empty()) == (
            r.0@,
            r.1,
            s@.subrange(r.2 as int, s@.len() as int),
        ),
{
    let n = s.len();
    let mut code: Vec<char> = Vec::new();
    let mut bytes: usize = 0;
    let mut i: usize = start;
    loop
        invariant
            n == s@.len(),
            start <= i <= n,
            bytes == utf8_bytes(code@),
            bytes <= 4 * code@.len(),
            code@.len() == i - start,
            scan(s@.subrange(start as int, n as int), Seq::empty()) == scan(
                s@.subrange(i as int, n as int),
                code@,
            ),
        decreases n - i,
    {
        let ghost rest = s@.subrange(i as int, n as int);
        if i == n {
            assert(rest.len() == 0);
            return (code, false, i);
        }
        let c = s[i];
        assert(rest[0] == c);
        if c == ':' {
            assert(rest.drop_first() =~= s@.subrange(i + 1, n as int));
            return (code, true, i + 1);
        }
        if is_whitespace(c) || bytes > 30 {
            return (code, false, i);
        }
        proof {
            lemma_utf8_bytes_push(code@, c);
            assert(rest.drop_first() =~= s@.subrange(i + 1, n as int));
        }
        code.push(c);
        bytes = bytes + char_utf8_len(c);
        i = i + 1;
    }
}

/// Replace `:shortcode:` sequences by emojis.
pub fn parse_emoji_shortcodes(text: &str) -> (r: String)
    ensures
        r@ == spec_parse_emoji(text@),
{
    let s = chars_of(text);
    let n = s.len();
    let mut out: Vec<char> = Vec::new();
    let mut i: usize = 0;
    assert(s@.subrange(0, n as int) =~= s@);
    while i < n
        invariant
            n == s@.len(),
            0 <= i <= n,
            s@ == text@,
            out@ + spec_parse_emoji(s@.subrange(i as int, n as int)) == spec_parse_emoji(text@),
        decreases n - i,
    {
        let ghost rest = s@.subrange(i as int, n as int);
        let c = s[i];
        assert(rest[0] == c);
        assert(rest.drop_first() =~= s@.subrange(i + 1, n as int));
        if c != ':' {
            let ghost before = out@;
            out.push(c);
            assert(out@ =~= before + seq![c]);
            assert(out@ + spec_parse_emoji(s@.subrange(i + 1, n as int)) =~= before
                + spec_parse_emoji(rest));
            i = i + 1;
        } else {
            let (code, closed, next) = scan_exec(s.as_slice(), i + 1);
            let mut colon: Vec<char> = Vec::new();
            colon.push(':');
            let piece: Vec<char> = if closed && code.len() > 0 {
                let code_str = string_from_chars(code.as_slice());
                match lookup_shortcode(code_str.as_str()) {
                    Some(e) => chars_of(e.as_str()),
                    None => {
                        let a = concat(colon.as_slice(), code.as_slice());
                        concat(a.as_slice(), colon.as_slice())
                    },
                }
            } else {
                concat(colon.as_slice(), code.as_slice())
            };
            assert(colon@ =~= seq![':']);
            let ghost before = out@;
            out = concat(out.as_slice(), piece.as_slice());
            assert(out@ + spec_parse_emoji(s@.subrange(next as int, n as int)) =~= before
                + spec_parse_emoji(rest));
            i = next;
        }
    }
    assert(s@.subrange(n as int, n as int) =~= Seq::<char>::empty());
    assert(out@ + Seq::<char>::empty() =~= out@);
    string_from_chars(out.as_slice())
}

} // verus!
