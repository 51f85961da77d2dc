use fido::config::{AppMode, ConfigManager, ModeDetector, ServerConfigManager};

#[test]
fn test_generate_instance_id() {
    let id1 = ConfigManager::generate_instance_id();
    let id2 = ConfigManager::generate_instance_id();

    assert!(!id1.is_empty());
    assert!(!id2.is_empty());
    assert!(id1.chars().all(|c| c.is_ascii_digit()));
}

#[test]
fn test_server_description() {
    let manager = ServerConfigManager::new(false, None);

    let desc = manager.get_server_description("https://fido-social.fly.dev");
    assert!(desc.contains("Production"));

    let desc = manager.get_server_description("http://localhost:3000");
    assert!(desc.contains("Local Development"));

    let desc = manager.get_server_description("https://custom.example.com");
    assert_eq!(desc, "Custom Server");
}

#[test]
fn test_cli_override_priority() {
    let manager = ServerConfigManager::new(false, None);

    let url = manager.determine_server_url(Some("http://cli-override:3000".to_string()), None);
    assert_eq!(url, "http://cli-override:3000");
}

#[test]
fn server_url_priority_is_cli_env_saved_default() {
    let saved = ServerConfigManager::new(false, Some("https://saved.example".to_string()));
    assert_eq!(
        saved.determine_server_url(None, Some("https://env.example".to_string())),
        "https://env.example"
    );
    assert_eq!(saved.determine_server_url(None, None), "https://saved.example");
    let native = ServerConfigManager::new(false, None);
    assert_eq!(native.determine_server_url(None, None), "https://fido-social.fly.dev");
    let web = ServerConfigManager::new(true, None);
    assert_eq!(web.determine_server_url(None, None), "http://127.0.0.1:3000");
    assert_eq!(web.get_server_description("http://127.0.0.1:3000"), "Local Development Server (default)");
    assert_eq!(native.get_server_description("https://fido-social.fly.dev"), "Production Server (default)");
    assert_eq!(web.get_server_description("https://fido-social.fly.dev"), "Production Server (custom)");
    assert_eq!(native.get_server_description("http://127.0.0.1:9"), "Local Development Server (custom)");
    assert_eq!(native.get_server_description("https://x.example"), "Custom Server");
}

#[test]
fn config_paths_live_in_the_config_dir() {
    let m = ConfigManager::new("/home/u/.fido".to_string());
    assert_eq!(m.get_session_file("42"), "/home/u/.fido/session_42.json");
    assert_eq!(m.get_preferences_file("alice"), "/home/u/.fido/prefs_alice.json");
    assert_eq!(m.get_server_config_file(), "/home/u/.fido/server_config.json");
}

#[test]
fn old_instance_sessions_expire_after_thirty_days() {
    let day = 86_400u64;
    let now = 100 * day;
    assert!(ConfigManager::is_expired_instance_session("session_1.json", now - 31 * day, now));
    assert!(!ConfigManager::is_expired_instance_session("session_1.json", now - 29 * day, now));
    assert!(!ConfigManager::is_expired_instance_session("prefs_1.json", 0, now));
    assert!(!ConfigManager::is_expired_instance_session("session_1.txt", 0, now));
}

#[test]
fn mode_follows_the_web_mode_variable() {
    let web = ModeDetector::new(true);
    assert!(web.is_web_mode());
    assert!(!web.is_native_mode());
    assert!(matches!(web.mode(), AppMode::Web));
    let native = ModeDetector::new(false);
    assert!(native.is_native_mode());
    assert!(matches!(native.mode(), AppMode::Native));
}

#[test]
fn test_default_server_url() {
    let native = ServerConfigManager::new(false, None);
    assert_eq!(native.get_default_server_url(), "https://fido-social.fly.dev");

    let web = ServerConfigManager::new(true, None);
    assert_eq!(web.get_default_server_url(), "http://127.0.0.1:3000");
}

#[test]
fn test_env_var_priority() {
    let manager = ServerConfigManager::new(false, None);
    let url = manager.determine_server_url(None, Some("http://env-override:3000".to_string()));
    assert_eq!(url, "http://env-override:3000");
}

#[test]
fn test_native_mode_when_no_env_var() {
    let detector = ModeDetector::new(false);
    assert_eq!(detector.mode(), &AppMode::Native);
    assert!(detector.is_native_mode());
    assert!(!detector.is_web_mode());
}

#[test]
fn test_web_mode_when_env_var_set() {
    let detector = ModeDetector::new(true);
    assert_eq!(detector.mode(), &AppMode::Web);
    assert!(detector.is_web_mode());
    assert!(!detector.is_native_mode());
}

#[test]
fn test_web_mode_with_any_value() {
    // Only whether the variable is set counts, so "false", "1" and "" all
    // select web mode.
    for value in ["false", "1", ""] {
        let detector = ModeDetector::from_env_value(Some(value));
        assert_eq!(detector.mode(), &AppMode::Web);
    }
    let detector = ModeDetector::from_env_value(None);
    assert_eq!(detector.mode(), &AppMode::Native);
}

#[test]
fn custom_server_url_is_detected() {
    let default_saved = ServerConfigManager::new(false, Some("https://fido-social.fly.dev".to_string()));
    assert!(!default_saved.has_custom_server_url(false));
    assert!(default_saved.has_custom_server_url(true));
    let other = ServerConfigManager::new(false, Some("https://other.example".to_string()));
    assert!(other.has_custom_server_url(false));
    let none = ServerConfigManager::new(true, None);
    assert!(!none.has_custom_server_url(false));
    assert_eq!(none.get_configured_server_url(), "http://127.0.0.1:3000");
}
