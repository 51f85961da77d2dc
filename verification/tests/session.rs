use fido::session::{
    is_stale_session_file, server_scope_key, validate_session_token, SessionSource, SessionStore,
    TokenProblem,
};
use fido::storage::{BrowserStorageAdapter, StorageAdapter, StorageAdapterFactory, NoSessionStore};
use fido::config::AppMode;

#[test]
fn test_empty_file_returns_none() {
    assert_eq!(validate_session_token(""), Err(TokenProblem::Empty));
}

#[test]
fn test_whitespace_only_returns_none() {
    assert_eq!(validate_session_token("   \n\t  "), Err(TokenProblem::Empty));
}

#[test]
fn test_invalid_token_length() {
    assert!(validate_session_token("short").is_err());
    let long_token = "a".repeat(300);
    assert!(validate_session_token(&long_token).is_err());
}

#[test]
fn test_corrupted_file_with_control_chars() {
    assert!(validate_session_token("token\x00with\x01control\x02chars").is_err());
}

#[test]
fn valid_tokens_are_trimmed() {
    assert_eq!(validate_session_token("  abcdefgh\n"), Ok("abcdefgh".to_string()));
    assert_eq!(validate_session_token("abcdefg"), Err(TokenProblem::BadLength));
    let max = "b".repeat(256);
    assert_eq!(validate_session_token(&max), Ok(max.clone()));
    assert_eq!(validate_session_token("abc\u{7}defgh"), Err(TokenProblem::ControlCharacters));
}

#[test]
fn server_scoped_files_are_independent_and_normalized() {
    let a = server_scope_key("https://fido.example.com");
    let b = server_scope_key("http://localhost:3000");
    assert_ne!(a, b);
    assert_eq!(a.len(), 16);
    assert_eq!(server_scope_key("https://FIDO.example.com/ "), a);
    assert!(a.chars().all(|c| c.is_ascii_hexdigit() && !c.is_ascii_uppercase()));
}

#[test]
fn store_paths_and_load_order() {
    let store = SessionStore::for_server_in_dir("/home/u/.fido".to_string(), "https://fido.example.com/");
    let key = server_scope_key("https://fido.example.com");
    assert_eq!(store.file_path(), format!("/home/u/.fido/session_{}", key));
    assert_eq!(store.legacy_file_path(), Some("/home/u/.fido/session".to_string()));
    assert_eq!(store.load_source(true, true), Some(SessionSource::Scoped));
    assert_eq!(store.load_source(false, true), Some(SessionSource::Legacy));
    assert_eq!(store.load_source(false, false), None);
}

#[test]
fn stale_session_files() {
    assert!(is_stale_session_file("session.bak", "session_abc"));
    assert!(is_stale_session_file("session.tmp", "session_abc"));
    assert!(is_stale_session_file("session.old", "session_abc"));
    assert!(is_stale_session_file("session_deadbeef.json", "session_abc"));
    assert!(!is_stale_session_file("session_deadbeef", "session_abc"));
    assert!(!is_stale_session_file("session_abc", "session_abc"));
}

#[test]
fn test_browser_storage_adapter() {
    let adapter = BrowserStorageAdapter::new();
    assert_eq!(adapter.store_credentials("test-token"), Ok(()));
    // Nothing is stored by the process itself: without the environment's token there is none.
    assert_eq!(adapter.load_credentials(None), None);
    assert_eq!(adapter.clear_credentials(), Ok(()));
    assert_eq!(adapter.load_credentials(Some("test-token".to_string())), Some("test-token".to_string()));
}

#[test]
fn test_storage_adapter_factory() {
    let store = SessionStore::for_server_in_dir("/tmp/fido".to_string(), "http://localhost:3000");
    let native = StorageAdapterFactory::create_adapter(&AppMode::Native, Some(store));
    assert!(matches!(native, Ok(StorageAdapter::File(_))));
    let web = StorageAdapterFactory::create_adapter(&AppMode::Web, None);
    assert!(matches!(web, Ok(StorageAdapter::Browser(_))));
    let missing = StorageAdapterFactory::create_adapter(&AppMode::Native, None);
    assert!(matches!(missing, Err(NoSessionStore)));
}
