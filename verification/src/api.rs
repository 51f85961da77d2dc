//! What the HTTP client decides on its own: the server it talks to, the
//! URLs it builds, and how an error response becomes an error.
use vstd::prelude::*;
use vstd::utf8::encode_utf8;
use crate::numfmt::{decimal, decimal_chars};
use crate::text::{chars_of, concat, contains, contains_exec, owned, string_from_chars, trim, trim_chars};

verus! {

/// A failed request.
#[derive(Debug)]
pub enum ApiError {
    NotFound(String),
    Unauthorized(String),
    BadRequest(String),
    TooManyRequests(String),
    /// Any other failure reported by the server.
    Api(String),
    /// The request did not complete.
    Network(String),
}

/// The server used when nothing else is configured.
pub const DEFAULT_PUBLIC_SERVER_URL: &'static str = "https://fido-web-production.up.railway.app";

/// The server a web-mode terminal talks to (inside its container).
pub const WEB_MODE_SERVER_URL: &'static str = "http://127.0.0.1:4747";

/// The server URL kept in the user's config file, whose text is `raw`:
/// trimmed, and none when blank.
pub fn server_url_from_config_text(raw: &str) -> (r: Option<String>)
    ensures
        trim(raw@).len() == 0 ==> r is None,
        trim(raw@).len() > 0 ==> (r matches Some(u) && u@ == trim(raw@)),
{
    let cs = chars_of(raw);
    let t = trim_chars(cs.as_slice());
    if t.len() == 0 {
        None
    } else {
        Some(string_from_chars(t.as_slice()))
    }
}

/// The server the client talks to: the container's in web mode; else the
/// environment's URL unless blank; else the config file's; else the public
/// default.
pub fn default_base_url(web_mode: bool, env_url: Option<String>, config_url: Option<String>) -> (r: String)
    ensures
        r@ == (if web_mode {
            WEB_MODE_SERVER_URL@
        } else {
            match env_url {
                Some(u) if trim(u@).len() > 0 => u@,
                _ => match config_url {
                    Some(c) => c@,
                    None => DEFAULT_PUBLIC_SERVER_URL@,
                },
            }
        }),
{
    if web_mode {
        return owned(WEB_MODE_SERVER_URL);
    }
    if let Some(u) = env_url {
        let cs = chars_of(u.as_str());
        let t = trim_chars(cs.as_slice());
        if t.len() > 0 {
            return u;
        }
    }
    match config_url {
        Some(c) => c,
        None => owned(DEFAULT_PUBLIC_SERVER_URL),
    }
}

/// A byte left as it is by URL encoding: ASCII letters and digits, `-`,
/// `.`, `_` and `~`.
pub open spec fn is_unreserved(b: u8) -> bool {
    (48 <= b <= 57) || (65 <= b <= 90) || (97 <= b <= 122) || b == 45 || b == 46 || b == 95 || b == 126
}

/// An upper-case hexadecimal digit.
pub open spec fn hex_upper(d: u8) -> char {
    if d < 10 {
        (48 + d) as char
    } else {
        (55 + d) as char
    }
}

/// The URL encoding of one byte.
pub open spec fn encode_byte(b: u8) -> Seq<char> {
    if is_unreserved(b) {
        seq![b as char]
    } else {
        seq!['%', hex_upper(b / 16), hex_upper(b % 16)]
    }
}

/// The URL encoding of some bytes.
pub open spec fn percent_encoded(bytes: Seq<u8>) -> Seq<char>
    decreases bytes.len(),
{
    if bytes.len() == 0 {
        Seq::empty()
    } else {
        percent_encoded(bytes.drop_last()) + encode_byte(bytes.last())
    }
}

/// `urlencoding::encode`: each UTF-8 byte of `s` that is not unreserved
/// becomes `%` and two upper-case hexadecimal digits.
#[verifier::external_body]
fn url_encode(s: &str) -> (r: String)
    ensures
        r@ == percent_encoded(encode_utf8(s@)),
{
    urlencoding::encode(s).into_owned()
}

/// `base` followed by `path`.
pub fn build_url(base: &str, path: &str) -> (r: String)
    ensures
        r@ == base@ + path@,
{
    let a = chars_of(base);
    let b = chars_of(path);
    let c = concat(a.as_slice(), b.as_slice());
    string_from_chars(c.as_slice())
}

/// The query string of `params`: `key=value` pairs, values URL-encoded,
/// joined by `&`.
pub open spec fn query_string(params: Seq<(Seq<char>, Seq<char>)>) -> Seq<char>
    decreases params.len(),
{
    if params.len() == 0 {
        Seq::empty()
    } else if params.len() == 1 {
        params[0].0 + seq!['='] + percent_encoded(encode_utf8(params[0].1))
    } else {
        query_string(params.drop_last()) + seq!['&'] + params.last().0 + seq!['='] + percent_encoded(
            encode_utf8(params.last().1),
        )
    }
}

pub open spec fn param_views(params: Seq<(String, String)>) -> Seq<(Seq<char>, Seq<char>)> {
    params.map_values(|p: (String, String)| (p.0@, p.1@))
}

/// `base` and `path`, then `?` and the query string when there are parameters.
pub fn build_url_with_params(base: &str, path: &str, params: &Vec<(String, String)>) -> (r: String)
    ensures
        r@ == (if params@.len() == 0 {
            base@ + path@
        } else {
            base@ + path@ + seq!['?'] + query_string(param_views(params@))
        }),
{
    let a = chars_of(base);
    let b = chars_of(path);
    let mut out = concat(a.as_slice(), b.as_slice());
    if params.len() == 0 {
        return string_from_chars(out.as_slice());
    }
    out.push('?');
    let ghost head = out@;
    let mut q: Vec<char> = Vec::new();
    let mut i: usize = 0;
    while i < params.len()
        invariant
            0 <= i <= params@.len(),
            q@ == query_string(param_views(params@.subrange(0, i as int))),
        decreases params@.len() - i,
    {
        let ghost prev = param_views(params@.subrange(0, i as int));
        let ghost next = param_views(params@.subrange(0, i + 1));
        proof {
            assert(next.drop_last() =~= prev);
            assert(next.last() == (params@[i as int].0@, params@[i as int].1@));
        }
        if i > 0 {
            q.push('&');
        }
        let k = chars_of(params[i].0.as_str());
        let v = url_encode(params[i].1.as_str());
        let vc = chars_of(v.as_str());
        q = concat(q.as_slice(), k.as_slice());
        q.push('=');
        q = concat(q.as_slice(), vc.as_slice());
        proof {
            assert(q@ =~= query_string(next));
        }
        i = i + 1;
    }
    proof {
        assert(params@.subrange(0, params@.len() as int) =~= params@);
    }
    let all = concat(out.as_slice(), q.as_slice());
    string_from_chars(all.as_slice())
}

/// The `error` and `details` strings of an error body `text` read as
/// JSON, as `serde_json` reads it: None when it is not JSON; inside, each
/// field when it is present and a string.
pub uninterp spec fn json_error_fields(text: Seq<char>) -> Option<(Option<Seq<char>>, Option<Seq<char>>)>;

/// `serde_json::from_str::<serde_json::Value>(text)`, then the `error`
/// and `details` members taken as strings (`Value::get`, `Value::as_str`).
#[verifier::external_body]
fn error_body_fields(text: &str) -> (r: Option<(Option<String>, Option<String>)>)
    ensures
        match r {
            None => json_error_fields(text@) is None,
            Some((e, d)) => json_error_fields(text@) == Some(
                (
                    match e {
                        Some(x) => Some(x@),
                        None => None,
                    },
                    match d {
                        Some(x) => Some(x@),
                        None => None,
                    },
                ),
            ),
        },
{
    match serde_json::from_str::<serde_json::Value>(text) {
        Ok(v) => Some(
            (
                v.get("error").and_then(|x| x.as_str()).map(|x| x.to_string()),
                v.get("details").and_then(|x| x.as_str()).map(|x| x.to_string()),
            ),
        ),
        Err(_) => None,
    }
}

/// The message of an error response with status `status` and body `text`
/// whose JSON fields are `fields`: an HTML page is named by its status; a
/// JSON body gives its `error` (or "Request failed") and, when not blank,
/// its `details`; any other body is kept as it is.
pub open spec fn spec_clean_error(status: u16, text: Seq<char>, fields: Option<(Option<Seq<char>>, Option<Seq<char>>)>) -> Seq<char> {
    if contains(text, "<html>"@) || contains(text, "<!DOCTYPE"@) {
        "Server returned "@ + decimal(status as nat) + " error. Please check the server URL."@
    } else {
        match fields {
            Some((e, d)) => {
                let err = match e {
                    Some(x) => x,
                    None => "Request failed"@,
                };
                match d {
                    Some(x) => if trim(x).len() > 0 {
                        err + ": "@ + x
                    } else {
                        err
                    },
                    None => err,
                }
            },
            None => text,
        }
    }
}

/// The message of an error response, given the JSON fields of its body.
pub fn clean_error_with_fields(
    status: u16,
    text: &str,
    fields: Option<(Option<String>, Option<String>)>,
) -> (r: String)
    ensures
        r@ == spec_clean_error(
            status,
            text@,
            match fields {
                Some((e, d)) => Some(
                    (
                        match e {
                            Some(x) => Some(x@),
                            None => None,
                        },
                        match d {
                            Some(x) => Some(x@),
                            None => None,
                        },
                    ),
                ),
                None => None,
            },
        ),
{
    let t = chars_of(text);
    let html = chars_of("<html>");
    let doctype = chars_of("<!DOCTYPE");
    if contains_exec(t.as_slice(), html.as_slice()) || contains_exec(t.as_slice(), doctype.as_slice()) {
        let a = chars_of("Server returned ");
        let b = decimal_chars(status as u128);
        let c = chars_of(" error. Please check the server URL.");
        let ab = concat(a.as_slice(), b.as_slice());
        let abc = concat(ab.as_slice(), c.as_slice());
        return string_from_chars(abc.as_slice());
    }
    match fields {
        Some((e, d)) => {
            let err = match e {
                Some(x) => x,
                None => owned("Request failed"),
            };
            match d {
                Some(x) => {
                    let xc = chars_of(x.as_str());
                    let xt = trim_chars(xc.as_slice());
                    if xt.len() > 0 {
                        let ec = chars_of(err.as_str());
                        let sep = chars_of(": ");
                        let es = concat(ec.as_slice(), sep.as_slice());
                        let all = concat(es.as_slice(), xc.as_slice());
                        string_from_chars(all.as_slice())
                    } else {
                        err
                    }
                },
                None => err,
            }
        },
        None => owned(text),
    }
}

/// The message of an error response with status `status_code` and body
/// `error_text`.
pub fn clean_error_message(status_code: u16, error_text: &str) -> (r: String)
    ensures
        r@ == spec_clean_error(status_code, error_text@, json_error_fields(error_text@)),
{
    let fields = error_body_fields(error_text);
    clean_error_with_fields(status_code, error_text, fields)
}

/// The error for a failed response with status `status` and message
/// `clean`: 404 not found, 401 and 403 unauthorized, 400 bad request, 429
/// too many requests, 5xx a server error naming the status, anything else
/// the message itself.
pub fn error_for_status(status: u16, clean: String) -> (r: ApiError)
    ensures
        status == 404 ==> r == ApiError::NotFound(clean),
        status == 401 || status == 403 ==> r == ApiError::Unauthorized(clean),
        status == 400 ==> r == ApiError::BadRequest(clean),
        status == 429 ==> r == ApiError::TooManyRequests(clean),
        500 <= status <= 599 ==> (r matches ApiError::Api(m) && m@ == "Server error ("@ + decimal(
            status as nat,
        ) + ")"@),
        !(status == 404 || status == 401 || status == 403 || status == 400 || status == 429 || (500
            <= status <= 599)) ==> r == ApiError::Api(clean),
{
    if status == 404 {
        ApiError::NotFound(clean)
    } else if status == 401 || status == 403 {
        ApiError::Unauthorized(clean)
    } else if status == 400 {
        ApiError::BadRequest(clean)
    } else if status == 429 {
        ApiError::TooManyRequests(clean)
    } else if 500 <= status && status <= 599 {
        let a = chars_of("Server error (");
        let b = decimal_chars(status as u128);
        let c = chars_of(")");
        let ab = concat(a.as_slice(), b.as_slice());
        let abc = concat(ab.as_slice(), c.as_slice());
        ApiError::Api(string_from_chars(abc.as_slice()))
    } else {
        ApiError::Api(clean)
    }
}

} // verus!
