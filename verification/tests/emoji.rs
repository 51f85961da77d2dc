use fido::emoji::{count_characters, parse_emoji_shortcodes, utf8_bytes_below};

#[test]
fn test_parse_emoji_shortcodes() {
    assert_eq!(parse_emoji_shortcodes("Hello :smile:"), "Hello 😄");
    assert_eq!(parse_emoji_shortcodes(":heart: Rust"), "❤️ Rust");
    assert_eq!(parse_emoji_shortcodes("No emoji here"), "No emoji here");
    assert_eq!(parse_emoji_shortcodes(":invalid_code:"), ":invalid_code:");
}

#[test]
fn test_count_characters() {
    assert_eq!(count_characters("Hello"), 5);
    assert_eq!(count_characters("Hello 😀"), 7);
    assert_eq!(count_characters("❤️"), 2);
}

#[test]
fn shortcodes_stop_at_whitespace_and_keep_unclosed_text() {
    assert_eq!(parse_emoji_shortcodes("a :smile b"), "a :smile b");
    assert_eq!(parse_emoji_shortcodes("time 10:30"), "time 10:30");
    assert_eq!(parse_emoji_shortcodes(":smile::smile:"), "😄😄");
}

#[test]
fn utf8_byte_limit_counts_bytes() {
    let chars: Vec<char> = "héllo".chars().collect();
    assert!(utf8_bytes_below(&chars, 7));
    assert!(!utf8_bytes_below(&chars, 6));
    let empty: Vec<char> = Vec::new();
    assert!(!utf8_bytes_below(&empty, 0));
    assert!(utf8_bytes_below(&empty, 1));
}
