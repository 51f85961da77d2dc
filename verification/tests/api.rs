use fido::api::{
    build_url, build_url_with_params, clean_error_message, clean_error_with_fields,
    default_base_url, error_for_status, server_url_from_config_text, ApiError,
    DEFAULT_PUBLIC_SERVER_URL, WEB_MODE_SERVER_URL,
};

#[test]
fn base_url_priority() {
    assert_eq!(default_base_url(true, Some("https://env".to_string()), None), WEB_MODE_SERVER_URL);
    assert_eq!(
        default_base_url(false, Some("https://env".to_string()), Some("https://cfg".to_string())),
        "https://env"
    );
    assert_eq!(
        default_base_url(false, Some("   ".to_string()), Some("https://cfg".to_string())),
        "https://cfg"
    );
    assert_eq!(default_base_url(false, None, None), DEFAULT_PUBLIC_SERVER_URL);
    assert_eq!(server_url_from_config_text("  https://x.example \n"), Some("https://x.example".to_string()));
    assert_eq!(server_url_from_config_text(" \n"), None);
}

#[test]
fn urls_and_query_encoding() {
    assert_eq!(build_url("http://h", "/posts"), "http://h/posts");
    assert_eq!(build_url_with_params("http://h", "/posts", &vec![]), "http://h/posts");
    let params = vec![
        ("limit".to_string(), "10".to_string()),
        ("q".to_string(), "a b&c/é".to_string()),
    ];
    assert_eq!(
        build_url_with_params("http://h", "/search", &params),
        "http://h/search?limit=10&q=a%20b%26c%2F%C3%A9"
    );
    let safe = vec![("s".to_string(), "Az09-_.~".to_string())];
    assert_eq!(build_url_with_params("", "/x", &safe), "/x?s=Az09-_.~");
}

#[test]
fn error_messages_from_bodies() {
    assert_eq!(
        clean_error_message(502, "<html><body>Bad gateway</body></html>"),
        "Server returned 502 error. Please check the server URL."
    );
    assert_eq!(
        clean_error_message(400, r#"{"error":"Invalid input","details":"name too long"}"#),
        "Invalid input: name too long"
    );
    assert_eq!(clean_error_message(400, r#"{"error":"Invalid input","details":"  "}"#), "Invalid input");
    assert_eq!(clean_error_message(400, r#"{"details":"x"}"#), "Request failed: x");
    assert_eq!(clean_error_message(400, "42"), "Request failed");
    assert_eq!(clean_error_message(500, "plain text"), "plain text");
    assert_eq!(
        clean_error_with_fields(404, "ignored", Some((Some("Missing".to_string()), None))),
        "Missing"
    );
    assert_eq!(clean_error_with_fields(404, "raw", None), "raw");
}

#[test]
fn errors_by_status() {
    assert!(matches!(error_for_status(404, "m".to_string()), ApiError::NotFound(ref m) if m == "m"));
    assert!(matches!(error_for_status(401, "m".to_string()), ApiError::Unauthorized(_)));
    assert!(matches!(error_for_status(403, "m".to_string()), ApiError::Unauthorized(_)));
    assert!(matches!(error_for_status(400, "m".to_string()), ApiError::BadRequest(_)));
    assert!(matches!(error_for_status(429, "m".to_string()), ApiError::TooManyRequests(_)));
    assert!(matches!(error_for_status(503, "m".to_string()), ApiError::Api(ref m) if m == "Server error (503)"));
    assert!(matches!(error_for_status(418, "m".to_string()), ApiError::Api(ref m) if m == "m"));
}
