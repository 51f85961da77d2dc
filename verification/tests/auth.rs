use fido::auth::{
    check_existing_session, device_poll_error, device_poll_timed_out, device_timeout_message,
    AuthState, GithubStep, PollVerdict, SessionCheck, User, DEVICE_AUTH_TIMEOUT_MS,
};

#[test]
fn device_flow_times_out_after_fifteen_minutes() {
    assert_eq!(DEVICE_AUTH_TIMEOUT_MS, 15 * 60 * 1000);
    assert!(!device_poll_timed_out(900_000));
    assert!(device_poll_timed_out(900_001));
    assert_eq!(device_timeout_message(), "Device authorization timeout: No response after 15 minutes");
}

#[test]
fn pending_polls_continue_and_others_fail() {
    assert!(matches!(device_poll_error("Api(\"authorization_pending\")", "pending"), PollVerdict::KeepPolling));
    match device_poll_error("Network(\"refused\")", "connection refused") {
        PollVerdict::Fail(m) => assert_eq!(m, "Device authorization error: connection refused"),
        PollVerdict::KeepPolling => panic!("expected failure"),
    }
}

#[test]
fn stored_sessions_are_checked() {
    assert_eq!(check_existing_session(false, Some(true)), SessionCheck::NoSession);
    assert_eq!(check_existing_session(true, Some(true)), SessionCheck::Valid);
    assert_eq!(check_existing_session(true, Some(false)), SessionCheck::Invalid);
    assert_eq!(check_existing_session(true, None), SessionCheck::Invalid);
}

fn user(id: u128, name: &str) -> User {
    User { id, username: name.to_string() }
}

#[test]
fn empty_test_user_list_is_an_error() {
    let mut a = AuthState::new(true);
    a.begin_request();
    assert!(a.loading);
    a.apply_test_users(vec![]);
    assert!(!a.loading);
    assert_eq!(a.error.as_deref(), Some("No test users available. Please check server configuration."));
    assert!(a.test_users.is_empty());
    assert_eq!(a.login_username(), None);
}

#[test]
fn test_users_load_and_the_selected_one_signs_in() {
    let mut a = AuthState::new(false);
    a.apply_test_users(vec![user(1, "alice"), user(2, "bob")]);
    assert_eq!(a.test_users.len(), 2);
    a.selected_index = 1;
    assert_eq!(a.login_username().as_deref(), Some("bob"));
    a.apply_login_success(user(2, "bob"));
    assert_eq!(a.current_user.as_ref().map(|u| u.id), Some(2));
    a.apply_login_error("401 Unauthorized");
    assert_eq!(a.error.as_deref(), Some("Login failed: 401 Unauthorized"));
}

#[test]
fn unreachable_server_message() {
    let mut a = AuthState::new(false);
    a.begin_request();
    a.apply_test_users_error("connection refused");
    assert!(!a.loading);
    assert_eq!(
        a.error.as_deref(),
        Some("Connection Error: Cannot reach server. Is it running? (connection refused)")
    );
    a.apply_github_start_error("boom");
    assert_eq!(a.error.as_deref(), Some("Failed to initiate GitHub Device Flow: boom"));
}

#[test]
fn device_flow_steps() {
    let mut a = AuthState::new(true);
    assert!(matches!(a.github_step(0, 0), GithubStep::Idle));
    a.start_github_flow("dev".to_string(), "ABCD".to_string(), "https://x".to_string(), 5, 1_000);
    assert!(a.github_auth_in_progress);
    assert!(matches!(a.github_step(2_000, 4_999), GithubStep::Wait));
    match a.github_step(6_000, 5_000) {
        GithubStep::Poll(code) => assert_eq!(code, "dev"),
        _ => panic!("expected a poll"),
    }
    assert!(matches!(a.github_step(1_000 + 900_001, 10_000), GithubStep::TimedOut));
    assert!(!matches!(a.github_step(1_000 + 900_000, 10_000), GithubStep::TimedOut));
    a.github_poll_interval = Some(-1);
    assert!(matches!(a.github_step(2_000, 1_000_000), GithubStep::Wait));
    a.github_poll_interval = None;
    assert!(matches!(a.github_step(2_000, 4_999), GithubStep::Wait));
    assert!(matches!(a.github_step(2_000, 5_000), GithubStep::Poll(_)));
}

#[test]
fn device_flow_timeout_and_errors_reset_the_flow() {
    let mut a = AuthState::new(true);
    a.start_github_flow("dev".to_string(), "ABCD".to_string(), "https://x".to_string(), 5, 0);
    a.apply_github_poll_error("Api(\"authorization_pending\")", "pending");
    assert!(a.github_auth_in_progress);
    assert!(a.error.is_none());
    a.apply_github_poll_error("Api(\"expired_token\")", "expired");
    assert!(!a.github_auth_in_progress);
    assert!(a.github_device_code.is_none());
    assert_eq!(a.error.as_deref(), Some("Device authorization error: expired"));

    a.start_github_flow("dev".to_string(), "ABCD".to_string(), "https://x".to_string(), 5, 0);
    a.apply_github_timeout();
    assert!(!a.github_auth_in_progress);
    assert!(a.github_auth_start_ms.is_none());
    assert_eq!(a.error.as_deref(), Some("Device authorization timeout: Please try again."));
}

#[test]
fn device_flow_login_and_logout() {
    let mut a = AuthState::new(true);
    a.start_github_flow("dev".to_string(), "ABCD".to_string(), "https://x".to_string(), 5, 0);
    a.error = Some("old".to_string());
    a.apply_github_login(user(7, "gh"));
    assert_eq!(a.current_user.as_ref().map(|u| u.username.as_str()), Some("gh"));
    assert!(a.error.is_none());
    assert!(!a.github_auth_in_progress);
    assert!(a.github_user_code.is_none());
    a.reset_for_logout();
    assert!(a.current_user.is_none());
    assert!(a.show_github_option);
}

#[test]
fn browser_open_failure_asks_to_visit_by_hand() {
    let mut a = AuthState::new(true);
    a.apply_browser_open("https://github.com/login/device", Some("no display"));
    assert_eq!(
        a.error.as_deref(),
        Some("Could not open browser automatically. Please visit: https://github.com/login/device (no display)")
    );
    a.apply_browser_open("https://github.com/login/device", None);
    assert!(a.error.is_none());
}
