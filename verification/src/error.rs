//! Turning raw error text into the message shown to the user.
use vstd::prelude::*;
use crate::text::{
    chars_of, concat, contains, contains_exec, find, find_from, index_of, index_of_exec,
    lemma_find_from, replace_all, replace_all_exec, slice_to_vec,
    string_from_chars,
};

verus! {

/// The lowercase form of `s` as `str::to_lowercase` computes it (Unicode
/// case mapping, which this crate does not restate).
pub uninterp spec fn lowercase(s: Seq<char>) -> Seq<char>;

/// `str::to_lowercase`.
#[verifier::external_body]
pub(crate) fn to_lowercase(s: &str) -> (r: String)
    ensures
        r@ == lowercase(s@),
{
    s.to_lowercase()
}

/// Any of the needles occurs in `s`.
pub open spec fn contains_any(s: Seq<char>, needles: Seq<Seq<char>>) -> bool {
    exists|i: int| 0 <= i < needles.len() && contains(s, needles[i])
}

pub open spec fn modifier(is_macos: bool) -> Seq<char> {
    if is_macos {
        "Cmd"@
    } else {
        "Ctrl"@
    }
}

/// The wrapped server details stripped from a rate-limit message.
pub open spec fn strip_rate_limit_wrapper(e: Seq<char>) -> Seq<char> {
    replace_all(
        replace_all(
            replace_all(e, "Rate limit exceeded: "@, Seq::empty()),
            "{\"error\":\"Too Many Requests\",\"details\":\""@,
            Seq::empty(),
        ),
        "\"}"@,
        Seq::empty(),
    )
}

/// The message for an error whose text is `e` and whose lowercase form is `l`.
pub open spec fn spec_categorize_error(e: Seq<char>, l: Seq<char>, is_macos: bool) -> Seq<char> {
    if contains(l, "rate limit"@) || contains(l, "too many requests"@) || contains(l, "429"@) {
        let start = find_from(e, "Please wait"@, 0);
        let tail = e.subrange(start, e.len() as int);
        if start >= 0 && index_of(tail, '.', 0) >= 0 {
            "⏳ "@ + tail.subrange(0, index_of(tail, '.', 0) + 1)
        } else if contains(l, "second"@) || contains(l, "wait"@) {
            "⏳ "@ + strip_rate_limit_wrapper(e)
        } else {
            "⏳ Rate limit exceeded. Please wait a moment before trying again."@
        }
    } else if contains(l, "connection"@) || contains(l, "timeout"@) || contains(l, "network"@) {
        "Network Error: Connection failed. Check your network and try again (Press "@ + modifier(
            is_macos,
        ) + "+R to retry)"@
    } else if contains(l, "401"@) || contains(l, "403"@) || contains(l, "unauthorized"@)
        || contains(l, "forbidden"@) {
        "Authorization Error: Session expired or insufficient permissions. Please log in again (Press Shift+L to logout)"@
    } else if contains(l, "400"@) || contains(l, "validation"@) || contains(l, "invalid"@) {
        "Validation Error: "@ + e
    } else if contains(l, "500"@) || contains(l, "502"@) || contains(l, "503"@) {
        "Server Error: The server is experiencing issues. Please try again later (Press "@
            + modifier(is_macos) + "+R to retry)"@
    } else {
        "Error: "@ + e
    }
}

fn has(l: &Vec<char>, needle: &str) -> (r: bool)
    ensures
        r == contains(l@, needle@),
{
    let n = chars_of(needle);
    contains_exec(l.as_slice(), n.as_slice())
}

fn join3(a: &str, b: &[char], c: &str) -> (r: String)
    ensures
        r@ == a@ + b@ + c@,
{
    let va = chars_of(a);
    let vc = chars_of(c);
    let ab = concat(va.as_slice(), b);
    let abc = concat(ab.as_slice(), vc.as_slice());
    string_from_chars(abc.as_slice())
}

/// The message for error text `error_str` given its lowercase form `lower`.
pub fn categorize_error_lowered(error_str: &str, lower: &str, is_macos: bool) -> (r: String)
    ensures
        r@ == spec_categorize_error(error_str@, lower@, is_macos),
{
    proof {
        reveal_strlit("");
        assert(""@ =~= Seq::<char>::empty());
    }
    let e = chars_of(error_str);
    let l = chars_of(lower);
    let modk = chars_of(crate::state::get_modifier_key_name(is_macos));
    if has(&l, "rate limit") || has(&l, "too many requests") || has(&l, "429") {
        let pw = chars_of("Please wait");
        match find(e.as_slice(), pw.as_slice()) {
            Some(start) => {
                proof {
                    lemma_find_from(e@, pw@, 0);
                }
                let elen = e.len();
                let tail = slice_to_vec(e.as_slice(), start, elen);
                match index_of_exec(tail.as_slice(), '.') {
                    Some(end) => {
                        let piece = slice_to_vec(tail.as_slice(), 0, end + 1);
                        return join3("⏳ ", piece.as_slice(), "");
                    },
                    None => {},
                }
            },
            None => {},
        }
        if has(&l, "second") || has(&l, "wait") {
            let empty: Vec<char> = Vec::new();
            let p1 = chars_of("Rate limit exceeded: ");
            let p2 = chars_of("{\"error\":\"Too Many Requests\",\"details\":\"");
            let p3 = chars_of("\"}");
            proof {
                reveal_strlit("Rate limit exceeded: ");
                reveal_strlit("{\"error\":\"Too Many Requests\",\"details\":\"");
                reveal_strlit("\"}");
            }
            let a = replace_all_exec(e.as_slice(), p1.as_slice(), empty.as_slice());
            let b = replace_all_exec(a.as_slice(), p2.as_slice(), empty.as_slice());
            let c = replace_all_exec(b.as_slice(), p3.as_slice(), empty.as_slice());
            assert(empty@ =~= Seq::<char>::empty());
            return join3("⏳ ", c.as_slice(), "");
        }
        return crate::text::owned("⏳ Rate limit exceeded. Please wait a moment before trying again.");
    }
    if has(&l, "connection") || has(&l, "timeout") || has(&l, "network") {
        return join3(
            "Network Error: Connection failed. Check your network and try again (Press ",
            modk.as_slice(),
            "+R to retry)",
        );
    }
    if has(&l, "401") || has(&l, "403") || has(&l, "unauthorized") || has(&l, "forbidden") {
        return crate::text::owned(
            "Authorization Error: Session expired or insufficient permissions. Please log in again (Press Shift+L to logout)",
        );
    }
    if has(&l, "400") || has(&l, "validation") || has(&l, "invalid") {
        return join3("Validation Error: ", e.as_slice(), "");
    }
    if has(&l, "500") || has(&l, "502") || has(&l, "503") {
        return join3(
            "Server Error: The server is experiencing issues. Please try again later (Press ",
            modk.as_slice(),
            "+R to retry)",
        );
    }
    join3("Error: ", e.as_slice(), "")
}

/// The message to show for error text `error_str`: rate limits, network
/// trouble, authorization, validation and server errors each get their own
/// wording; anything else is shown as `Error: ...`.
pub fn categorize_error(error_str: &str, is_macos: bool) -> (r: String)
    ensures
        r@ == spec_categorize_error(error_str@, lowercase(error_str@), is_macos),
{
    let lower = to_lowercase(error_str);
    categorize_error_lowered(error_str, lower.as_str(), is_macos)
}

} // verus!
