//! Decisions of the sign-in flows: the GitHub device flow's polling and
//! the check of a stored session.
use vstd::prelude::*;
use crate::text::{chars_of, concat, contains, contains_exec, join_strs, owned, string_from_chars};

verus! {

/// How long the device flow waits for the user, in milliseconds.
pub const DEVICE_AUTH_TIMEOUT_MS: u64 = 900000;

/// The device flow has waited longer than fifteen minutes.
pub fn device_poll_timed_out(elapsed_ms: u64) -> (r: bool)
    ensures
        r == (elapsed_ms > 900000),
{
    elapsed_ms > DEVICE_AUTH_TIMEOUT_MS
}

/// The error when the device flow timed out.
pub fn device_timeout_message() -> (r: &'static str)
    ensures
        r@ == "Device authorization timeout: No response after 15 minutes"@,
{
    "Device authorization timeout: No response after 15 minutes"
}

/// What a failed poll of the device flow means.
pub enum PollVerdict {
    /// The user has not authorized yet: poll again.
    KeepPolling,
    /// The flow failed with this message.
    Fail(String),
}

/// A failed poll whose error reads `debug_text` (its debug form) and
/// `display_text`: still pending when the debug form says
/// `authorization_pending`, else a failure naming the error.
pub fn device_poll_error(debug_text: &str, display_text: &str) -> (r: PollVerdict)
    ensures
        contains(debug_text@, "authorization_pending"@) ==> r is KeepPolling,
        !contains(debug_text@, "authorization_pending"@) ==> (r matches PollVerdict::Fail(m) && m@
            == "Device authorization error: "@ + display_text@),
{
    let d = chars_of(debug_text);
    let p = chars_of("authorization_pending");
    if contains_exec(d.as_slice(), p.as_slice()) {
        PollVerdict::KeepPolling
    } else {
        let a = chars_of("Device authorization error: ");
        let b = chars_of(display_text);
        let m = concat(a.as_slice(), b.as_slice());
        PollVerdict::Fail(string_from_chars(m.as_slice()))
    }
}

/// What checking a stored session leads to.
#[derive(Debug, Clone, Copy, PartialEq, Eq, Structural)]
pub enum SessionCheck {
    /// No token is stored: sign in.
    NoSession,
    /// The server accepted the token.
    Valid,
    /// The server refused the token or could not be asked: delete it.
    Invalid,
}

/// The outcome of a session check: `has_token` tells whether a token was
/// stored, `validation` what the server said of it (None when it could not
/// be asked).
pub fn check_existing_session(has_token: bool, validation: Option<bool>) -> (r: SessionCheck)
    ensures
        !has_token ==> r == SessionCheck::NoSession,
        has_token ==> r == (if validation == Some(true) {
            SessionCheck::Valid
        } else {
            SessionCheck::Invalid
        }),
{
    if !has_token {
        return SessionCheck::NoSession;
    }
    match validation {
        Some(true) => SessionCheck::Valid,
        _ => SessionCheck::Invalid,
    }
}

/// A user as the server names it.
#[derive(Clone)]
pub struct User {
    pub id: u128,
    pub username: String,
}

/// The sign-in screen: the test users to pick from, and the GitHub device
/// flow while it runs.
pub struct AuthState {
    pub test_users: Vec<User>,
    pub selected_index: usize,
    pub loading: bool,
    pub error: Option<String>,
    pub current_user: Option<User>,
    pub show_github_option: bool,
    pub github_auth_in_progress: bool,
    pub github_device_code: Option<String>,
    pub github_user_code: Option<String>,
    pub github_verification_uri: Option<String>,
    /// Seconds between two polls, as the server asked.
    pub github_poll_interval: Option<i64>,
    /// When the device flow started, in milliseconds.
    pub github_auth_start_ms: Option<u64>,
}

/// The state with the device flow forgotten.
pub open spec fn without_github_flow(s: AuthState) -> AuthState {
    AuthState {
        github_auth_in_progress: false,
        github_device_code: None,
        github_user_code: None,
        github_verification_uri: None,
        github_poll_interval: None,
        github_auth_start_ms: None,
        ..s
    }
}

/// What the main loop does for the device flow on one turn.
pub enum GithubStep {
    /// No device flow is waiting for a poll.
    Idle,
    /// The flow has waited longer than fifteen minutes.
    TimedOut,
    /// Too early to poll again.
    Wait,
    /// Poll the server with this device code.
    Poll(String),
}

/// The seconds between polls: the server's interval, five by default.
pub open spec fn poll_interval_secs(interval: Option<i64>) -> int {
    match interval {
        Some(i) => i as int,
        None => 5,
    }
}

/// Too early to poll again, `since_last_poll_ms` after the last poll: a
/// negative interval never elapses.
pub open spec fn poll_too_early(interval: Option<i64>, since_last_poll_ms: u64) -> bool {
    let secs = poll_interval_secs(interval);
    secs < 0 || since_last_poll_ms < secs * 1000
}

impl AuthState {
    /// The sign-in screen before anything was loaded.
    pub fn new(show_github_option: bool) -> (r: AuthState)
        ensures
            r.test_users@.len() == 0,
            r.selected_index == 0,
            !r.loading,
            r.error is None,
            r.current_user is None,
            r.show_github_option == show_github_option,
            r == without_github_flow(r),
    {
        AuthState {
            test_users: Vec::new(),
            selected_index: 0,
            loading: false,
            error: None,
            current_user: None,
            show_github_option,
            github_auth_in_progress: false,
            github_device_code: None,
            github_user_code: None,
            github_verification_uri: None,
            github_poll_interval: None,
            github_auth_start_ms: None,
        }
    }

    /// A request to the server starts: loading, and no error shown.
    pub fn begin_request(&mut self)
        ensures
            *final(self) == (AuthState { loading: true, error: None, ..*old(self) }),
    {
        self.loading = true;
        self.error = None;
    }

    /// The test users arrived: an empty list is an error and keeps the old
    /// list.
    pub fn apply_test_users(&mut self, users: Vec<User>)
        ensures
            users@.len() == 0 ==> (final(self).error matches Some(m) && m@
                == "No test users available. Please check server configuration."@) && *final(self) == (AuthState { loading: false, error: final(self).error, ..*old(self) }),
            users@.len() > 0 ==> *final(self) == (AuthState {
                test_users: users,
                loading: false,
                ..*old(self)
            }),
    {
        if users.len() == 0 {
            self.error = Some(owned("No test users available. Please check server configuration."));
        } else {
            self.test_users = users;
        }
        self.loading = false;
    }

    /// The test users could not be loaded: the server could not be reached.
    pub fn apply_test_users_error(&mut self, e: &str)
        ensures
            final(self).error matches Some(m) && m@
                == "Connection Error: Cannot reach server. Is it running? ("@ + e@ + ")"@,
            *final(self) == (AuthState { loading: false, error: final(self).error, ..*old(self) }),
    {
        let a = join_strs("Connection Error: Cannot reach server. Is it running? (", e);
        let m = join_strs(a.as_str(), ")");
        self.error = Some(m);
        self.loading = false;
    }

    /// The name to sign in with: the selected test user's, none when there
    /// are no test users.
    pub fn login_username(&self) -> (r: Option<String>)
        requires
            self.test_users@.len() > 0 ==> self.selected_index < self.test_users@.len(),
        ensures
            self.test_users@.len() == 0 ==> r is None,
            self.test_users@.len() > 0 ==> (r matches Some(u) && u@
                == self.test_users@[self.selected_index as int].username@),
    {
        if self.test_users.len() == 0 {
            None
        } else {
            Some(owned(self.test_users[self.selected_index].username.as_str()))
        }
    }

    /// The server signed `user` in.
    pub fn apply_login_success(&mut self, user: User)
        ensures
            *final(self) == (AuthState { current_user: Some(user), loading: false, ..*old(self) }),
    {
        self.current_user = Some(user);
        self.loading = false;
    }

    /// Signing in failed with the error `e`.
    pub fn apply_login_error(&mut self, e: &str)
        ensures
            final(self).error matches Some(m) && m@ == "Login failed: "@ + e@,
            *final(self) == (AuthState { loading: false, error: final(self).error, ..*old(self) }),
    {
        self.error = Some(join_strs("Login failed: ", e));
        self.loading = false;
    }

    /// The device flow started at `now_ms`: show the code and poll.
    pub fn start_github_flow(
        &mut self,
        device_code: String,
        user_code: String,
        verification_uri: String,
        interval: i64,
        now_ms: u64,
    )
        ensures
            *final(self) == (AuthState {
                github_device_code: Some(device_code),
                github_user_code: Some(user_code),
                github_verification_uri: Some(verification_uri),
                github_poll_interval: Some(interval),
                github_auth_in_progress: true,
                github_auth_start_ms: Some(now_ms),
                loading: false,
                ..*old(self)
            }),
    {
        self.github_device_code = Some(device_code);
        self.github_user_code = Some(user_code);
        self.github_verification_uri = Some(verification_uri);
        self.github_poll_interval = Some(interval);
        self.github_auth_in_progress = true;
        self.github_auth_start_ms = Some(now_ms);
        self.loading = false;
    }

    /// The device flow could not be started: the error `e` is shown.
    pub fn apply_github_start_error(&mut self, e: &str)
        ensures
            final(self).error matches Some(m) && m@ == "Failed to initiate GitHub Device Flow: "@ + e@,
            *final(self) == (AuthState { loading: false, error: final(self).error, ..*old(self) }),
    {
        self.error = Some(join_strs("Failed to initiate GitHub Device Flow: ", e));
        self.loading = false;
    }

    /// Forget the device flow.
    pub fn reset_github(&mut self)
        ensures
            *final(self) == without_github_flow(*old(self)),
    {
        self.github_auth_in_progress = false;
        self.github_device_code = None;
        self.github_user_code = None;
        self.github_verification_uri = None;
        self.github_poll_interval = None;
        self.github_auth_start_ms = None;
    }

    /// What the device flow does at `now_ms`, `since_last_poll_ms` after the
    /// last poll: nothing when no flow runs; a timeout after fifteen
    /// minutes; a wait until the poll interval elapsed; then a poll with
    /// the device code, when there is one.
    pub fn github_step(&self, now_ms: u64, since_last_poll_ms: u64) -> (r: GithubStep)
        ensures
            !self.github_auth_in_progress ==> r is Idle,
            self.github_auth_in_progress ==> match self.github_auth_start_ms {
                Some(start) if now_ms - start > 900000 => r is TimedOut,
                _ => if poll_too_early(self.github_poll_interval, since_last_poll_ms) {
                    r is Wait
                } else {
                    match self.github_device_code {
                        Some(code) => (r matches GithubStep::Poll(c) && c@ == code@),
                        None => r is Idle,
                    }
                },
            },
    {
        if !self.github_auth_in_progress {
            return GithubStep::Idle;
        }
        if let Some(start) = self.github_auth_start_ms {
            if now_ms > start && now_ms - start > DEVICE_AUTH_TIMEOUT_MS {
                return GithubStep::TimedOut;
            }
        }
        let secs: i64 = match self.github_poll_interval {
            Some(i) => i,
            None => 5,
        };
        if secs < 0 {
            return GithubStep::Wait;
        }
        let wait_ms: u128 = (secs as u128) * 1000;
        if (since_last_poll_ms as u128) < wait_ms {
            return GithubStep::Wait;
        }
        match &self.github_device_code {
            Some(code) => GithubStep::Poll(owned(code.as_str())),
            None => GithubStep::Idle,
        }
    }

    /// The device flow timed out: the user is asked to try again.
    pub fn apply_github_timeout(&mut self)
        ensures
            final(self).error matches Some(m) && m@ == "Device authorization timeout: Please try again."@,
            *final(self) == without_github_flow(AuthState { error: final(self).error, ..*old(self) }),
    {
        self.error = Some(owned("Device authorization timeout: Please try again."));
        self.reset_github();
    }

    /// The device flow signed `user` in.
    pub fn apply_github_login(&mut self, user: User)
        ensures
            *final(self) == without_github_flow(AuthState { current_user: Some(user), error: None, ..*old(self) }),
    {
        self.current_user = Some(user);
        self.reset_github();
        self.error = None;
    }

    /// A poll failed with an error whose debug form is `debug_text` and
    /// whose message is `display_text`: still pending, nothing changes;
    /// otherwise the error is shown and the flow forgotten.
    pub fn apply_github_poll_error(&mut self, debug_text: &str, display_text: &str)
        ensures
            contains(debug_text@, "authorization_pending"@) ==> *final(self) == *old(self),
            !contains(debug_text@, "authorization_pending"@) ==> (final(self).error matches Some(m)
                && m@ == "Device authorization error: "@ + display_text@) && *final(self)
                == without_github_flow(AuthState { error: final(self).error, ..*old(self) }),
    {
        match device_poll_error(debug_text, display_text) {
            PollVerdict::KeepPolling => {},
            PollVerdict::Fail(m) => {
                self.error = Some(m);
                self.reset_github();
            },
        }
    }

    /// Opening the verification page `uri` in a browser ended: on failure
    /// (`error`) the user is asked to visit it by hand, with the reason;
    /// on success no error is shown.
    pub fn apply_browser_open(&mut self, uri: &str, error: Option<&str>)
        ensures
            match error {
                Some(e) => (final(self).error matches Some(m) && m@
                    == "Could not open browser automatically. Please visit: "@ + uri@ + " ("@ + e@
                    + ")"@),
                None => final(self).error is None,
            },
            *final(self) == (AuthState { error: final(self).error, ..*old(self) }),
    {
        match error {
            Some(e) => {
                let a = join_strs("Could not open browser automatically. Please visit: ", uri);
                let b = join_strs(a.as_str(), " (");
                let c = join_strs(b.as_str(), e);
                self.error = Some(join_strs(c.as_str(), ")"));
            },
            None => {
                self.error = None;
            },
        }
    }

    /// Signing out: no user, no device flow, no error.
    pub fn reset_for_logout(&mut self)
        ensures
            *final(self) == without_github_flow(AuthState { current_user: None, error: None, ..*old(self) }),
    {
        self.current_user = None;
        self.reset_github();
        self.error = None;
    }
}

} // verus!
