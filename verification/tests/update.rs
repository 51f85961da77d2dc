use fido::debug_log::{log_key_event, log_modal_state};
use fido::error::{categorize_error, categorize_error_lowered};
use fido::update::{env_flag, is_newer_version, parse_u32, parse_version, update_available};

#[test]
fn version_comparison() {
    assert!(is_newer_version("1.2.4", "1.2.3"));
    assert!(!is_newer_version("1.2.3", "1.2.3"));
    assert!(!is_newer_version("1.2.3", "1.10.0"));
    assert!(is_newer_version("2.0", "1.99.99"));
    assert!(is_newer_version("1.2.3.1", "1.2.3"));
    assert!(!is_newer_version("1.2", "1.2.0"));
    assert!(is_newer_version("1.x.5", "1.4"));
    assert_eq!(parse_version("1.x.5"), vec![1, 5]);
    assert_eq!(parse_version("v1.2"), vec![2]);
    assert_eq!(parse_version(""), Vec::<u32>::new());
}

#[test]
fn parse_u32_matches_std() {
    let p = |s: &str| parse_u32(&s.chars().collect::<Vec<char>>());
    assert_eq!(p("42"), Some(42));
    assert_eq!(p("+7"), Some(7));
    assert_eq!(p("4294967295"), Some(u32::MAX));
    assert_eq!(p("4294967296"), None);
    assert_eq!(p(""), None);
    assert_eq!(p("+"), None);
    assert_eq!(p("-1"), None);
    assert_eq!(p("1a"), None);
    for s in ["0", "007", "+12", "99999999999", "x"] {
        assert_eq!(p(s), s.parse::<u32>().ok());
    }
}

#[test]
fn update_offer() {
    assert_eq!(update_available("0.3.0", "0.2.9"), Some("0.3.0".to_string()));
    assert_eq!(update_available("0.2.9", "0.2.9"), None);
    assert_eq!(update_available("0.2.0", "0.2.9"), None);
}

#[test]
fn environment_switches() {
    for on in ["1", "true", "TRUE", "Yes", "on"] {
        assert!(env_flag(Some(on)), "{}", on);
    }
    for off in ["0", "false", "", " 1", "enabled"] {
        assert!(!env_flag(Some(off)), "{}", off);
    }
    assert!(!env_flag(None));
}

#[test]
fn debug_log_lines() {
    assert_eq!(
        log_modal_state(true, false, true, "Reply"),
        "MODAL_STATE: viewing_post_detail=true, show_full_post_modal=false, composer_open=true, composer_mode=Reply"
    );
    assert_eq!(log_key_event("Char('q')", "main"), "KEY_EVENT: key=Char('q'), context=main");
}

#[test]
fn error_categories() {
    assert_eq!(
        categorize_error("Rate limited. Please wait 30 seconds. Retry later", false),
        "⏳ Please wait 30 seconds."
    );
    assert_eq!(
        categorize_error("429 Too Many Requests", false),
        "⏳ Rate limit exceeded. Please wait a moment before trying again."
    );
    assert_eq!(
        categorize_error("connection refused", false),
        "Network Error: Connection failed. Check your network and try again (Press Ctrl+R to retry)"
    );
    assert_eq!(
        categorize_error("Request TIMEOUT", true),
        "Network Error: Connection failed. Check your network and try again (Press Cmd+R to retry)"
    );
    assert_eq!(
        categorize_error("HTTP 401", false),
        "Authorization Error: Session expired or insufficient permissions. Please log in again (Press Shift+L to logout)"
    );
    assert_eq!(categorize_error("Invalid name", false), "Validation Error: Invalid name");
    assert_eq!(
        categorize_error("HTTP 503", false),
        "Server Error: The server is experiencing issues. Please try again later (Press Ctrl+R to retry)"
    );
    assert_eq!(
        categorize_error(
            "Rate limit exceeded: {\"error\":\"Too Many Requests\",\"details\":\"Try again in 5 seconds\"}",
            false
        ),
        "⏳ Try again in 5 seconds"
    );
    assert_eq!(categorize_error("weird", false), "Error: weird");
    assert_eq!(categorize_error_lowered("X", "forbidden", false).starts_with("Authorization"), true);
}
