//! The lines written to the modal debug log.
use vstd::prelude::*;
use crate::text::{chars_of, concat, string_from_chars};

verus! {

/// File the debug lines are appended to.
pub const DEBUG_LOG_FILE: &'static str = "fido_modal_debug.log";

pub open spec fn bool_text(b: bool) -> Seq<char> {
    if b {
        "true"@
    } else {
        "false"@
    }
}

fn bool_chars(b: bool) -> (r: Vec<char>)
    ensures
        r@ == bool_text(b),
{
    if b {
        chars_of("true")
    } else {
        chars_of("false")
    }
}

fn join(a: Vec<char>, b: &str) -> (r: Vec<char>)
    ensures
        r@ == a@ + b@,
{
    let bc = chars_of(b);
    concat(a.as_slice(), bc.as_slice())
}

fn join_chars(a: Vec<char>, b: Vec<char>) -> (r: Vec<char>)
    ensures
        r@ == a@ + b@,
{
    concat(a.as_slice(), b.as_slice())
}

/// The line recording which modals are shown.
pub fn log_modal_state(
    viewing_post_detail: bool,
    show_full_post_modal: bool,
    composer_open: bool,
    composer_mode: &str,
) -> (r: String)
    ensures
        r@ == "MODAL_STATE: viewing_post_detail="@ + bool_text(viewing_post_detail)
            + ", show_full_post_modal="@ + bool_text(show_full_post_modal) + ", composer_open="@
            + bool_text(composer_open) + ", composer_mode="@ + composer_mode@,
{
    let s = chars_of("MODAL_STATE: viewing_post_detail=");
    let s = join_chars(s, bool_chars(viewing_post_detail));
    let s = join(s, ", show_full_post_modal=");
    let s = join_chars(s, bool_chars(show_full_post_modal));
    let s = join(s, ", composer_open=");
    let s = join_chars(s, bool_chars(composer_open));
    let s = join(s, ", composer_mode=");
    let s = join(s, composer_mode);
    string_from_chars(s.as_slice())
}

/// The line recording a key and the context it arrived in.
pub fn log_key_event(key_code: &str, modal_context: &str) -> (r: String)
    ensures
        r@ == "KEY_EVENT: key="@ + key_code@ + ", context="@ + modal_context@,
{
    let s = chars_of("KEY_EVENT: key=");
    let s = join(s, key_code);
    let s = join(s, ", context=");
    let s = join(s, modal_context);
    string_from_chars(s.as_slice())
}

} // verus!
