//! The realtime (websocket) client: connection status, transport policy,
//! back-off, and the decisions of the connect-and-read loop as a state
//! machine that the caller drives with the outcomes of its I/O.
use vstd::prelude::*;
use crate::text::{
    chars_of, concat, has_prefix, owned, seq_eq, string_from_chars, strip_prefix, trim,
    trim_chars, trim_end_char, trim_end_char_exec,
};

verus! {

/// State of the realtime connection as shown in the status bar.
#[derive(Debug, Clone, Copy, PartialEq, Eq, Structural)]
pub enum RealtimeConnectionStatus {
    Disabled,
    Connecting,
    Connected,
    Reconnecting,
    Unauthorized,
}

pub open spec fn spec_label(s: RealtimeConnectionStatus) -> Seq<char> {
    match s {
        RealtimeConnectionStatus::Disabled => "off"@,
        RealtimeConnectionStatus::Connecting => "connecting"@,
        RealtimeConnectionStatus::Connected => "live"@,
        RealtimeConnectionStatus::Reconnecting => "polling"@,
        RealtimeConnectionStatus::Unauthorized => "auth"@,
    }
}

impl RealtimeConnectionStatus {
    /// Short label for the status bar.
    pub fn label(self) -> (r: &'static str)
        ensures
            r@ == spec_label(self),
    {
        match self {
            RealtimeConnectionStatus::Disabled => "off",
            RealtimeConnectionStatus::Connecting => "connecting",
            RealtimeConnectionStatus::Connected => "live",
            RealtimeConnectionStatus::Reconnecting => "polling",
            RealtimeConnectionStatus::Unauthorized => "auth",
        }
    }

    /// While (re)connecting, visible data is refreshed by polling instead.
    pub fn uses_polling_fallback(self) -> (r: bool)
        ensures
            r == (self is Connecting || self is Reconnecting),
    {
        match self {
            RealtimeConnectionStatus::Connecting => true,
            RealtimeConnectionStatus::Reconnecting => true,
            _ => false,
        }
    }
}

/// A status change with an optional explanation.
#[derive(Debug)]
pub struct RealtimeStatusUpdate {
    pub status: RealtimeConnectionStatus,
    pub message: Option<String>,
}

impl RealtimeStatusUpdate {
    /// An update with the given status and message.
    pub fn new(status: RealtimeConnectionStatus, message: Option<String>) -> (r: Self)
        ensures
            r.status == status,
            r.message == message,
    {
        RealtimeStatusUpdate { status, message }
    }

    /// An update with no message.
    pub fn from_status(status: RealtimeConnectionStatus) -> (r: Self)
        ensures
            r.status == status,
            r.message is None,
    {
        RealtimeStatusUpdate { status, message: None }
    }
}

// ---------------------------------------------------------------------------
// Transport policy
// ---------------------------------------------------------------------------

/// Index of the first `/` or `:` in `s` at or after `i`, or `s.len()`.
pub open spec fn first_sep(s: Seq<char>, i: int) -> int
    decreases s.len() - i,
{
    if i < 0 || i >= s.len() {
        s.len() as int
    } else if s[i] == '/' || s[i] == ':' {
        i
    } else {
        first_sep(s, i + 1)
    }
}

/// The host part of `host[:port][/path]`: a bracketed IPv6 host runs up
/// to and with its closing `]` (the whole rest when it has none); any
/// other host ends at the first `/` or `:`.
pub open spec fn host_of(rest: Seq<char>) -> Seq<char> {
    if rest.len() > 0 && rest[0] == '[' {
        let close = crate::text::index_of(rest, ']', 0);
        if close < 0 {
            rest
        } else {
            rest.subrange(0, close + 1)
        }
    } else {
        rest.subrange(0, first_sep(rest, 0))
    }
}

pub open spec fn is_loopback_host(h: Seq<char>) -> bool {
    h == "127.0.0.1"@ || h == "localhost"@ || h == "[::1]"@ || h == "::1"@
}

/// The session token may only travel over `wss://`, or over `ws://` to a
/// loopback host.
pub open spec fn spec_ws_transport_is_safe(url: Seq<char>) -> bool {
    let u = trim(url);
    has_prefix(u, "wss://"@) || (has_prefix(u, "ws://"@) && is_loopback_host(
        host_of(u.subrange(5, u.len() as int)),
    ))
}

proof fn lemma_first_sep_range(s: Seq<char>, i: int)
    requires
        0 <= i <= s.len(),
    ensures
        i <= first_sep(s, i) <= s.len(),
    decreases s.len() - i,
{
    if i < s.len() && !(s[i] == '/' || s[i] == ':') {
        lemma_first_sep_range(s, i + 1);
    }
}

proof fn lemma_first_sep_at(s: Seq<char>, i: int, j: int)
    requires
        0 <= i <= j < s.len(),
        s[j] == '/' || s[j] == ':',
        forall|k: int| i <= k < j ==> s[k] != '/' && s[k] != ':',
    ensures
        first_sep(s, i) == j,
    decreases j - i,
{
    if i < j {
        lemma_first_sep_at(s, i + 1, j);
    }
}

/// The session token goes over plain `ws://` to `host` exactly when `host`
/// is `127.0.0.1` or `localhost` (for a host name free of `/`, `:` and
/// brackets).
pub proof fn lemma_plain_ws_only_to_loopback(host: Seq<char>)
    requires
        host.len() > 0,
        host[0] != '[',
        forall|k: int| 0 <= k < host.len() ==> host[k] != '/' && host[k] != ':',
    ensures
        spec_ws_transport_is_safe("ws://"@ + host + "/ws"@) == (host == "127.0.0.1"@ || host
            == "localhost"@),
{
    reveal_strlit("ws://");
    reveal_strlit("wss://");
    reveal_strlit("/ws");
    reveal_strlit("127.0.0.1");
    reveal_strlit("localhost");
    reveal_strlit("[::1]");
    reveal_strlit("::1");
    let u = "ws://"@ + host + "/ws"@;
    assert(u[0] == 'w');
    assert(crate::text::trim_start(u) == u);
    assert(u.last() == 's');
    assert(crate::text::trim_end(u) == u);
    assert(trim(u) == u);
    assert(!has_prefix(u, "wss://"@)) by {
        assert(u.subrange(0, 6)[2] == u[2]);
        assert(u[2] == ':');
        assert("wss://"@[2] == 's');
    }
    assert(has_prefix(u, "ws://"@)) by {
        assert(u.subrange(0, 5) =~= "ws://"@);
    }
    let rest = u.subrange(5, u.len() as int);
    assert(rest =~= host + "/ws"@);
    assert(rest[0] == host[0]);
    assert(rest[host.len() as int] == '/');
    assert forall|k: int| 0 <= k < host.len() implies rest[k] != '/' && rest[k] != ':' by {
        assert(rest[k] == host[k]);
    }
    lemma_first_sep_at(rest, 0, host.len() as int);
    assert(host_of(rest) =~= host);
    assert(host != "[::1]"@) by {
        assert("[::1]"@[0] == '[');
    }
    assert(host != "::1"@) by {
        assert("::1"@[0] == ':');
    }
}

fn first_sep_exec(s: &[char]) -> (r: usize)
    ensures
        r as int == first_sep(s@, 0),
{
    let mut i: usize = 0;
    while i < s.len() && s[i] != '/' && s[i] != ':'
        invariant
            0 <= i <= s@.len(),
            first_sep(s@, 0) == first_sep(s@, i as int),
        decreases s@.len() - i,
    {
        i = i + 1;
    }
    i
}

/// Whether the session token may be sent to `url`.
pub fn ws_transport_is_safe(url: &str) -> (r: bool)
    ensures
        r == spec_ws_transport_is_safe(url@),
{
    proof {
        reveal_strlit("wss://");
        reveal_strlit("ws://");
        reveal_strlit("127.0.0.1");
        reveal_strlit("localhost");
        reveal_strlit("[::1]");
        reveal_strlit("::1");
    }
    let raw = chars_of(url);
    let u = trim_chars(raw.as_slice());
    let wss = chars_of("wss://");
    if crate::text::starts_with(u.as_slice(), wss.as_slice()) {
        return true;
    }
    let ws = chars_of("ws://");
    match strip_prefix(u.as_slice(), ws.as_slice()) {
        Some(rest) => {
            let host = if rest.len() > 0 && rest[0] == '[' {
                match crate::text::index_of_exec(rest.as_slice(), ']') {
                    Some(k) => crate::text::slice_to_vec(rest.as_slice(), 0, k + 1),
                    None => crate::text::slice_to_vec(rest.as_slice(), 0, rest.len()),
                }
            } else {
                let end = first_sep_exec(rest.as_slice());
                proof {
                    lemma_first_sep_range(rest@, 0);
                }
                crate::text::slice_to_vec(rest.as_slice(), 0, end)
            };
            proof {
                assert(rest@.subrange(0, rest@.len() as int) =~= rest@);
            }
            let a = chars_of("127.0.0.1");
            let b = chars_of("localhost");
            let c = chars_of("[::1]");
            let d = chars_of("::1");
            seq_eq(host.as_slice(), a.as_slice()) || seq_eq(host.as_slice(), b.as_slice())
                || seq_eq(host.as_slice(), c.as_slice()) || seq_eq(host.as_slice(), d.as_slice())
        },
        None => false,
    }
}

// ---------------------------------------------------------------------------
// Back-off
// ---------------------------------------------------------------------------

pub open spec fn pow2(n: nat) -> nat
    decreases n,
{
    if n == 0 {
        1
    } else {
        2 * pow2((n - 1) as nat)
    }
}

/// Seconds to wait before reconnect attempt `attempt + 1`: doubling from one
/// second, capped at thirty.
pub open spec fn spec_reconnect_delay(attempt: nat) -> nat {
    if pow2(attempt) < 30 {
        pow2(attempt)
    } else {
        30
    }
}

proof fn lemma_pow2_monotone(a: nat, b: nat)
    requires
        a <= b,
    ensures
        pow2(a) <= pow2(b),
    decreases b,
{
    if a < b {
        lemma_pow2_monotone(a, (b - 1) as nat);
    }
}

/// The back-off starts at one second and doubles after each failed attempt
/// until it reaches thirty seconds, where it stays.
pub proof fn lemma_reconnect_backoff(attempt: nat)
    ensures
        spec_reconnect_delay(0) == 1,
        spec_reconnect_delay(attempt + 1) == (if 2 * spec_reconnect_delay(attempt) < 30 {
            2 * spec_reconnect_delay(attempt)
        } else {
            30
        }),
        1 <= spec_reconnect_delay(attempt) <= 30,
{
    assert(pow2(0) == 1);
    assert(pow2(attempt + 1) == 2 * pow2(attempt));
    lemma_pow2_monotone(0, attempt);
}

/// Back-off delay, in seconds, after failed attempt `attempt`.
pub fn reconnect_delay(attempt: u32) -> (r: u64)
    ensures
        r as nat == spec_reconnect_delay(attempt as nat),
{
    let mut m: u64 = 1;
    let mut i: u32 = 0;
    while i < attempt && m < 30
        invariant
            0 <= i <= attempt,
            m as nat == pow2(i as nat),
            m <= 64,
        decreases attempt - i,
    {
        m = m * 2;
        i = i + 1;
    }
    proof {
        if m >= 30 {
            lemma_pow2_monotone(i as nat, attempt as nat);
        }
    }
    if m < 30 {
        m
    } else {
        30
    }
}

// ---------------------------------------------------------------------------
// Endpoint
// ---------------------------------------------------------------------------

/// The websocket endpoint of an HTTP(S) server: `https` becomes `wss`,
/// anything else `ws`, and `/ws` is appended.
pub open spec fn spec_websocket_url(base_url: Seq<char>) -> Seq<char> {
    let base = trim_end_char(base_url, '/');
    let origin = if has_prefix(base, "https://"@) {
        "wss://"@ + base.subrange(8, base.len() as int)
    } else if has_prefix(base, "http://"@) {
        "ws://"@ + base.subrange(7, base.len() as int)
    } else {
        "ws://"@ + base
    };
    origin + "/ws"@
}

/// The websocket endpoint of `https://host` is `wss://host/ws` and that of
/// `http://host` is `ws://host/ws`: the scheme's security is kept and the
/// host is kept as it is (for a host not ending in `/`).
pub proof fn lemma_websocket_url_keeps_security(host: Seq<char>)
    requires
        host.len() > 0,
        host.last() != '/',
    ensures
        spec_websocket_url("https://"@ + host) == "wss://"@ + host + "/ws"@,
        spec_websocket_url("http://"@ + host) == "ws://"@ + host + "/ws"@,
{
    reveal_strlit("https://");
    reveal_strlit("http://");
    reveal_strlit("wss://");
    reveal_strlit("ws://");
    let a = "https://"@ + host;
    let b = "http://"@ + host;
    assert(a.last() == host.last());
    assert(b.last() == host.last());
    assert(trim_end_char(a, '/') == a);
    assert(trim_end_char(b, '/') == b);
    assert(has_prefix(a, "https://"@)) by {
        assert(a.subrange(0, 8) =~= "https://"@);
    }
    assert(a.subrange(8, a.len() as int) =~= host);
    assert(!has_prefix(b, "https://"@)) by {
        assert(b.subrange(0, 8)[4] == b[4]);
        assert(b[4] == ':');
        assert("https://"@[4] == 's');
    }
    assert(has_prefix(b, "http://"@)) by {
        assert(b.subrange(0, 7) =~= "http://"@);
    }
    assert(b.subrange(7, b.len() as int) =~= host);
}

/// The websocket endpoint for the server at `base_url`.
pub fn websocket_url(base_url: &str) -> (r: String)
    ensures
        r@ == spec_websocket_url(base_url@),
{
    proof {
        reveal_strlit("https://");
        reveal_strlit("http://");
        reveal_strlit("wss://");
        reveal_strlit("ws://");
        reveal_strlit("/ws");
    }
    let raw = chars_of(base_url);
    let base = trim_end_char_exec(raw.as_slice(), '/');
    let https = chars_of("https://");
    let http = chars_of("http://");
    let wss = chars_of("wss://");
    let ws = chars_of("ws://");
    let origin = match strip_prefix(base.as_slice(), https.as_slice()) {
        Some(rest) => concat(wss.as_slice(), rest.as_slice()),
        None => match strip_prefix(base.as_slice(), http.as_slice()) {
            Some(rest) => concat(ws.as_slice(), rest.as_slice()),
            None => concat(ws.as_slice(), base.as_slice()),
        },
    };
    let tail = chars_of("/ws");
    let full = concat(origin.as_slice(), tail.as_slice());
    string_from_chars(full.as_slice())
}

// ---------------------------------------------------------------------------
// Connect-and-read decisions
// ---------------------------------------------------------------------------

/// How one connection ended.
#[derive(Debug)]
pub enum ConnectionOutcome {
    /// Try again after the back-off delay.
    Retry(String),
    /// Give up: the server or the transport policy refused the session.
    Unauthorized(String),
    /// Nobody listens to the client's notices any more.
    ReceiverDropped,
}

/// A notice the client hands to the application.
#[derive(Debug)]
pub enum ClientNotice {
    Status(RealtimeStatusUpdate),
    /// Pushed events may have been missed: reload what is shown.
    RefetchRequired,
}

/// Refuse insecure transports before connecting: `None` when the URL is safe.
pub fn preflight(url: &str) -> (r: Option<ConnectionOutcome>)
    ensures
        spec_ws_transport_is_safe(url@) <==> r is None,
        r matches Some(o) ==> (o matches ConnectionOutcome::Unauthorized(m)
            && m@ == "insecure ws:// transport; use wss:// or a loopback server"@),
{
    if ws_transport_is_safe(url) {
        None
    } else {
        Some(
            ConnectionOutcome::Unauthorized(
                owned("insecure ws:// transport; use wss:// or a loopback server"),
            ),
        )
    }
}

/// How a failed connection attempt ends: an HTTP 401 refuses the session,
/// anything else is retried with the error's text.
pub fn connect_failure(http_status: Option<u16>, message: String) -> (r: ConnectionOutcome)
    ensures
        http_status == Some(401u16) ==> (r matches ConnectionOutcome::Unauthorized(m) && m@
            == "session rejected by /ws"@),
        http_status != Some(401u16) ==> (r matches ConnectionOutcome::Retry(m) && m@ == message@),
{
    match http_status {
        Some(s) if s == 401 => ConnectionOutcome::Unauthorized(owned("session rejected by /ws")),
        _ => ConnectionOutcome::Retry(message),
    }
}

/// One frame (or the lack of one) read from an open socket.
#[derive(Debug)]
pub enum Frame {
    /// A text frame; `parsed` tells whether it held a valid event envelope.
    Text { parsed: bool },
    Ping,
    Pong,
    Binary,
    /// A close frame, with its reason if it carried one.
    Close(Option<String>),
    /// The stream ended.
    End,
    /// Reading failed.
    Error(String),
}

/// What to do after reading a frame.
#[derive(Debug)]
pub enum FrameStep {
    /// Read the next frame.
    Continue,
    /// Hand the parsed event to the application, then read on.
    Deliver,
    /// Answer with a pong carrying the same payload, then read on.
    Pong,
    /// The connection is over.
    Finish(ConnectionOutcome),
}

/// The reason to report for a close frame: its text, or "websocket closed"
/// when it carried none or an empty one.
pub open spec fn spec_close_reason(reason: Option<Seq<char>>) -> Seq<char> {
    match reason {
        Some(r) => if r.len() > 0 {
            r
        } else {
            "websocket closed"@
        },
        None => "websocket closed"@,
    }
}

pub fn frame_step(frame: Frame) -> (r: FrameStep)
    ensures
        match frame {
            Frame::Text { parsed } => if parsed {
                r is Deliver
            } else {
                r is Continue
            },
            Frame::Ping => r is Pong,
            Frame::Pong => r is Continue,
            Frame::Binary => r is Continue,
            Frame::Close(reason) => r matches FrameStep::Finish(ConnectionOutcome::Retry(m))
                && m@ == spec_close_reason(match reason {
                Some(x) => Some(x@),
                None => None,
            }),
            Frame::End => r matches FrameStep::Finish(ConnectionOutcome::Retry(m)) && m@
                == "websocket closed"@,
            Frame::Error(e) => r matches FrameStep::Finish(ConnectionOutcome::Retry(m)) && m@
                == e@,
        },
{
    match frame {
        Frame::Text { parsed } => if parsed {
            FrameStep::Deliver
        } else {
            FrameStep::Continue
        },
        Frame::Ping => FrameStep::Pong,
        Frame::Pong => FrameStep::Continue,
        Frame::Binary => FrameStep::Continue,
        Frame::Close(reason) => {
            let text = match reason {
                Some(r) => {
                    if r.as_str().is_empty() {
                        owned("websocket closed")
                    } else {
                        r
                    }
                },
                None => owned("websocket closed"),
            };
            FrameStep::Finish(ConnectionOutcome::Retry(text))
        },
        Frame::End => FrameStep::Finish(ConnectionOutcome::Retry(owned("websocket closed"))),
        Frame::Error(e) => FrameStep::Finish(ConnectionOutcome::Retry(e)),
    }
}

/// Where the client loop stands.
#[derive(Debug)]
pub enum ClientPhase {
    /// Not started yet.
    Start,
    /// Waiting to hear whether the attempt's status notice was delivered.
    Announcing,
    /// Connected or connecting; waiting for the connection's outcome.
    Connecting,
    /// Waiting for the refetch notice to be handed over (its result is ignored).
    Refetching(String),
    /// Waiting to hear whether the reconnecting notice was delivered.
    Retrying,
    /// Waiting for the back-off delay to pass.
    Sleeping,
    /// A final notice was sent; the loop ends whatever its result.
    Finishing,
    Stopped,
}

/// The client loop's state.
pub struct RealtimeClient {
    pub attempt: u32,
    pub phase: ClientPhase,
}

/// What happened since the last step.
#[derive(Debug)]
pub enum ClientEvent {
    /// The loop begins; `has_token` tells whether a session token exists.
    Started { has_token: bool },
    /// The last notice was delivered.
    Delivered,
    /// The last notice could not be delivered.
    Undelivered,
    /// The connection ended this way.
    Outcome(ConnectionOutcome),
    /// The back-off delay has passed.
    Woke,
}

/// What the caller must do next.
#[derive(Debug)]
pub enum ClientAction {
    /// Hand this notice to the application and report whether it was delivered.
    Notify(ClientNotice),
    /// Connect and read until the connection ends; report its outcome.
    Connect,
    /// Wait this many seconds, then report `Woke`.
    Sleep(u64),
    /// The loop is over.
    Stop,
    /// The event does not fit the current phase: nothing to do.
    Ignore,
}

/// Status announced before attempt `attempt`.
pub open spec fn spec_attempt_status(attempt: u32) -> RealtimeConnectionStatus {
    if attempt == 0 {
        RealtimeConnectionStatus::Connecting
    } else {
        RealtimeConnectionStatus::Reconnecting
    }
}

pub fn attempt_status(attempt: u32) -> (r: RealtimeConnectionStatus)
    ensures
        r == spec_attempt_status(attempt),
{
    if attempt == 0 {
        RealtimeConnectionStatus::Connecting
    } else {
        RealtimeConnectionStatus::Reconnecting
    }
}

pub open spec fn is_status(a: ClientAction, s: RealtimeConnectionStatus) -> bool {
    a matches ClientAction::Notify(ClientNotice::Status(u)) && u.status == s
}

pub open spec fn is_status_msg(a: ClientAction, s: RealtimeConnectionStatus, m: Option<Seq<char>>) -> bool {
    a matches ClientAction::Notify(ClientNotice::Status(u)) && u.status == s && match u.message {
        Some(x) => m == Some(x@),
        None => m is None,
    }
}

impl RealtimeClient {
    /// A client before its first step.
    pub fn new() -> (c: Self)
        ensures
            c.attempt == 0,
            c.phase is Start,
    {
        RealtimeClient { attempt: 0, phase: ClientPhase::Start }
    }

    /// Advance the loop by one event and say what to do next.
    pub fn step(&mut self, event: ClientEvent) -> (a: ClientAction)
        ensures
            match (old(self).phase, event) {
                (ClientPhase::Start, ClientEvent::Started { has_token }) => if has_token {
                    final(self).phase is Announcing && final(self).attempt == old(self).attempt
                        && is_status_msg(a, spec_attempt_status(old(self).attempt), None)
                } else {
                    final(self).phase is Finishing && is_status_msg(
                        a,
                        RealtimeConnectionStatus::Disabled,
                        Some("missing session token"@),
                    )
                },
                (ClientPhase::Announcing, ClientEvent::Delivered) => final(self).phase is Connecting
                    && a is Connect,
                (ClientPhase::Announcing, ClientEvent::Undelivered) => final(self).phase is Stopped
                    && a is Stop,
                (ClientPhase::Connecting, ClientEvent::Outcome(o)) => match o {
                    ConnectionOutcome::ReceiverDropped => final(self).phase is Stopped && a is Stop,
                    ConnectionOutcome::Unauthorized(m) => final(self).phase is Finishing
                        && is_status_msg(a, RealtimeConnectionStatus::Unauthorized, Some(m@)),
                    ConnectionOutcome::Retry(m) => (final(self).phase matches ClientPhase::Refetching(
                        k,
                    ) && k@ == m@) && (a matches ClientAction::Notify(ClientNotice::RefetchRequired)),
                },
                (ClientPhase::Refetching(m), ClientEvent::Delivered) => final(self).phase is Retrying
                    && is_status_msg(a, RealtimeConnectionStatus::Reconnecting, Some(m@)),
                (ClientPhase::Refetching(m), ClientEvent::Undelivered) => final(self).phase
                    is Retrying && is_status_msg(
                    a,
                    RealtimeConnectionStatus::Reconnecting,
                    Some(m@),
                ),
                (ClientPhase::Retrying, ClientEvent::Delivered) => final(self).phase is Sleeping
                    && final(self).attempt == old(self).attempt && (a matches ClientAction::Sleep(
                    secs,
                ) && secs as nat == spec_reconnect_delay(old(self).attempt as nat)),
                (ClientPhase::Retrying, ClientEvent::Undelivered) => final(self).phase is Stopped
                    && a is Stop,
                (ClientPhase::Sleeping, ClientEvent::Woke) => {
                    let next = if old(self).attempt == u32::MAX {
                        u32::MAX
                    } else {
                        (old(self).attempt + 1) as u32
                    };
                    &&& final(self).attempt == next
                    &&& final(self).phase is Announcing
                    &&& is_status_msg(a, spec_attempt_status(next), None)
                },
                (ClientPhase::Finishing, _) => final(self).phase is Stopped && a is Stop,
                (ClientPhase::Stopped, _) => final(self).phase is Stopped && a is Stop,
                _ => a is Ignore,
            },
            !(old(self).phase is Sleeping) ==> final(self).attempt == old(self).attempt,
    {
        let mut phase = ClientPhase::Stopped;
        std::mem::swap(&mut phase, &mut self.phase);
        match (phase, event) {
            (ClientPhase::Start, ClientEvent::Started { has_token }) => {
                if has_token {
                    self.phase = ClientPhase::Announcing;
                    let s = attempt_status(self.attempt);
                    ClientAction::Notify(
                        ClientNotice::Status(RealtimeStatusUpdate::new(s, None)),
                    )
                } else {
                    self.phase = ClientPhase::Finishing;
                    ClientAction::Notify(
                        ClientNotice::Status(
                            RealtimeStatusUpdate::new(
                                RealtimeConnectionStatus::Disabled,
                                Some(owned("missing session token")),
                            ),
                        ),
                    )
                }
            },
            (ClientPhase::Announcing, ClientEvent::Delivered) => {
                self.phase = ClientPhase::Connecting;
                ClientAction::Connect
            },
            (ClientPhase::Announcing, ClientEvent::Undelivered) => ClientAction::Stop,
            (ClientPhase::Connecting, ClientEvent::Outcome(o)) => match o {
                ConnectionOutcome::ReceiverDropped => ClientAction::Stop,
                ConnectionOutcome::Unauthorized(m) => {
                    self.phase = ClientPhase::Finishing;
                    ClientAction::Notify(
                        ClientNotice::Status(
                            RealtimeStatusUpdate::new(
                                RealtimeConnectionStatus::Unauthorized,
                                Some(m),
                            ),
                        ),
                    )
                },
                ConnectionOutcome::Retry(m) => {
                    self.phase = ClientPhase::Refetching(m);
                    ClientAction::Notify(ClientNotice::RefetchRequired)
                },
            },
            (ClientPhase::Refetching(m), ClientEvent::Delivered) | (
                ClientPhase::Refetching(m),
                ClientEvent::Undelivered,
            ) => {
                self.phase = ClientPhase::Retrying;
                ClientAction::Notify(
                    ClientNotice::Status(
                        RealtimeStatusUpdate::new(RealtimeConnectionStatus::Reconnecting, Some(m)),
                    ),
                )
            },
            (ClientPhase::Retrying, ClientEvent::Delivered) => {
                self.phase = ClientPhase::Sleeping;
                ClientAction::Sleep(reconnect_delay(self.attempt))
            },
            (ClientPhase::Retrying, ClientEvent::Undelivered) => ClientAction::Stop,
            (ClientPhase::Sleeping, ClientEvent::Woke) => {
                self.attempt = if self.attempt == u32::MAX {
                    u32::MAX
                } else {
                    self.attempt + 1
                };
                self.phase = ClientPhase::Announcing;
                let s = attempt_status(self.attempt);
                ClientAction::Notify(ClientNotice::Status(RealtimeStatusUpdate::new(s, None)))
            },
            (ClientPhase::Finishing, _) => ClientAction::Stop,
            (ClientPhase::Stopped, _) => ClientAction::Stop,
            (other, _) => {
                self.phase = other;
                ClientAction::Ignore
            },
        }
    }
}

} // verus!
