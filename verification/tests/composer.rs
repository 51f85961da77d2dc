use fido::composer::{ComposerMode, ComposerState, ErrorPlace, Submission, MAX_BIO_CHARS, MAX_POST_CHARS};
use fido::state::InputMode;

fn refused(s: Submission) -> (ErrorPlace, String) {
    match s {
        Submission::Refused { place, message } => (place, message),
        _ => panic!("expected a refusal"),
    }
}

#[test]
fn composer_modes_and_limits() {
    let mut c = ComposerState::new();
    let mut mode = InputMode::Navigation;
    assert!(!c.is_open());
    assert!(matches!(c.submit_composer("hi"), Submission::Nothing));
    c.open_composer_edit_bio(&mut mode);
    assert_eq!(c.max_chars, MAX_BIO_CHARS);
    assert_eq!(mode, InputMode::Typing);
    c.open_composer_new_post(&mut mode);
    assert_eq!(c.max_chars, MAX_POST_CHARS);
    assert!(c.is_open());
    c.close_composer(&mut mode);
    assert!(!c.is_open());
    assert_eq!(mode, InputMode::Navigation);
}

#[test]
fn text_area_content_and_counting() {
    let lines = vec!["first".to_string(), "".to_string(), "third".to_string()];
    assert_eq!(ComposerState::get_content(&lines), "first\n\nthird");
    assert_eq!(ComposerState::get_content(&vec![]), "");
    assert_eq!(ComposerState::char_count("héllo 😀"), 7);
    let mut c = ComposerState::new();
    let mut mode = InputMode::Navigation;
    c.open_composer_edit_bio(&mut mode);
    assert!(c.accepts_char(&"x".repeat(159)));
    assert!(!c.accepts_char(&"x".repeat(160)));
}

#[test]
fn empty_submissions_are_refused_per_mode() {
    let mut c = ComposerState::new();
    let mut mode = InputMode::Navigation;
    c.open_composer_new_post(&mut mode);
    assert_eq!(
        refused(c.submit_composer("   ")),
        (ErrorPlace::Feed, "Validation Error: Cannot post empty content.".to_string())
    );
    c.open_composer_reply(1, "bob".to_string(), "parent".to_string(), &mut mode);
    assert_eq!(
        refused(c.submit_composer("\n")),
        (ErrorPlace::Thread, "Validation Error: Cannot post empty reply.".to_string())
    );
    c.open_composer_edit_post(2, &mut mode);
    assert_eq!(
        refused(c.submit_composer("")),
        (ErrorPlace::Thread, "Validation Error: Cannot save empty post.".to_string())
    );
    c.open_composer_edit_bio(&mut mode);
    assert_eq!(
        refused(c.submit_composer(" ")),
        (ErrorPlace::Profile, "Validation Error: Bio cannot be empty.".to_string())
    );
}

#[test]
fn long_submissions_are_refused_with_counts() {
    let mut c = ComposerState::new();
    let mut mode = InputMode::Navigation;
    c.open_composer_new_post(&mut mode);
    assert_eq!(
        refused(c.submit_composer(&"a".repeat(281))),
        (ErrorPlace::Feed, "Validation Error: Content exceeds 280 characters (current: 281)".to_string())
    );
    c.open_composer_edit_bio(&mut mode);
    assert_eq!(
        refused(c.submit_composer(&"b".repeat(161))),
        (ErrorPlace::Profile, "Validation Error: Content exceeds 160 characters (current: 161)".to_string())
    );
}

#[test]
fn accepted_submissions_replace_shortcodes() {
    let mut c = ComposerState::new();
    let mut mode = InputMode::Navigation;
    c.open_composer_new_post(&mut mode);
    assert!(matches!(c.submit_composer("hi :smile:"), Submission::NewPost { content } if content == "hi 😄"));
    c.open_composer_reply(9, "bob".to_string(), "p".to_string(), &mut mode);
    assert!(matches!(
        c.submit_composer(&"a".repeat(280)),
        Submission::Reply { parent_post_id: 9, content } if content.len() == 280
    ));
    c.open_composer_edit_post(4, &mut mode);
    assert!(matches!(c.submit_composer("x"), Submission::EditPost { post_id: 4, content } if content == "x"));
    c.open_composer_edit_bio(&mut mode);
    assert!(matches!(c.submit_composer(" me "), Submission::EditBio { content } if content == " me "));
    assert!(matches!(c.mode, Some(ComposerMode::EditBio)));
}
