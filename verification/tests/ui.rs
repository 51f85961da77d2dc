use fido::composer::ComposerMode;
use fido::conversations::DmCommand;
use fido::keys::{KeyCode, KeyEvent, KeyModifiers};
use fido::route::{KeyRoute, PostsCommand};
use fido::state::{InputMode, Screen, Tab};
use fido::ui::{UiAction, UiState};

fn main_ui(tab: Tab) -> UiState {
    let mut s = UiState::new(false);
    s.frame.screen = Screen::Main;
    s.frame.tab = tab;
    s
}

fn press(code: KeyCode) -> KeyEvent {
    KeyEvent::press(code)
}

#[test]
fn help_closes_first_and_the_app_keeps_running() {
    for key in [KeyCode::Esc, KeyCode::Char('?')] {
        let mut s = main_ui(Tab::Profile);
        s.overlays.show_help = true;
        s.overlays.show_edit_bio_modal = true;
        assert_eq!(s.step(press(key)), UiAction::Done);
        assert!(!s.overlays.show_help);
        assert!(s.frame.running);
        assert!(s.overlays.show_edit_bio_modal);
    }
    let mut s = main_ui(Tab::Posts);
    s.step(press(KeyCode::Char('?')));
    assert!(s.overlays.show_help);
}

#[test]
fn quitting_asks_first_with_unsaved_settings() {
    for key in [KeyCode::Esc, KeyCode::Char('q')] {
        let mut s = main_ui(Tab::Settings);
        s.frame.settings_unsaved = true;
        s.step(press(key));
        assert!(s.overlays.show_save_confirmation);
        assert_eq!(s.frame.pending_tab, None);
        assert!(s.frame.running);

        let mut t = main_ui(Tab::Settings);
        t.step(press(key));
        assert!(!t.frame.running);
    }
}

#[test]
fn escape_cancels_the_save_confirmation_only() {
    let mut s = main_ui(Tab::Settings);
    s.overlays.show_save_confirmation = true;
    s.frame.pending_tab = Some(Tab::Posts);
    s.overlays.show_edit_bio_modal = true;
    s.step(press(KeyCode::Esc));
    assert!(!s.overlays.show_save_confirmation);
    assert_eq!(s.frame.pending_tab, None);
    assert!(s.overlays.show_edit_bio_modal);
    assert!(s.frame.running);
}

#[test]
fn escape_closes_composer_and_new_conversation_modal_emptied() {
    for mode in [ComposerMode::NewPost, ComposerMode::EditBio] {
        let mut s = main_ui(Tab::Posts);
        s.composer_mode = Some(mode);
        s.composer_text = "Test post".to_string();
        s.frame.input_mode = InputMode::Typing;
        s.step(press(KeyCode::Esc));
        assert!(s.composer_mode.is_none());
        assert_eq!(s.composer_text, "");
        assert!(s.frame.running);
    }
    let mut s = main_ui(Tab::DMs);
    s.overlays.new_conversation_modal_open = true;
    s.new_conversation_username = "testuser".to_string();
    s.step(press(KeyCode::Esc));
    assert!(!s.overlays.new_conversation_modal_open);
    assert_eq!(s.new_conversation_username, "");
    assert!(s.frame.running);
}

#[test]
fn escape_from_a_home_board_returns_to_the_list_then_quits() {
    let mut s = main_ui(Tab::Posts);
    s.frame.community_open = true;
    assert_eq!(s.step(press(KeyCode::Esc)), UiAction::CommunityClosed);
    assert!(!s.frame.community_open);
    assert!(s.frame.running);
    s.step(press(KeyCode::Esc));
    assert!(!s.frame.running);

    let mut r = UiState::new(true);
    r.frame.screen = Screen::Main;
    r.frame.community_open = true;
    r.step(press(KeyCode::Esc));
    assert!(!r.frame.running);
}

#[test]
fn community_modal_opens_and_closes_over_the_board() {
    let mut s = main_ui(Tab::Posts);
    s.frame.community_open = true;
    assert_eq!(s.step(press(KeyCode::Char('i'))), UiAction::Done);
    assert!(s.overlays.show_community_modal);
    s.step(press(KeyCode::Esc));
    assert!(!s.overlays.show_community_modal);
    assert!(s.frame.community_open);
    assert!(s.frame.running);
}

#[test]
fn typing_in_dms_switches_modes() {
    let mut s = main_ui(Tab::DMs);
    assert_eq!(s.step(press(KeyCode::Char('H'))), UiAction::Dms(DmCommand::StartTyping));
    assert_eq!(s.frame.input_mode, InputMode::Typing);
    assert_eq!(s.dm_text, "H");
    s.step(press(KeyCode::Esc));
    assert_eq!(s.frame.input_mode, InputMode::Navigation);
    assert_eq!(s.dm_text, "");

    s.frame.input_mode = InputMode::Typing;
    s.dm_text = "Hello ".to_string();
    s.step(press(KeyCode::Char('N')));
    assert_eq!(s.dm_text, "Hello N");
    s.step(press(KeyCode::Char('n')));
    assert_eq!(s.dm_text, "Hello Nn");
    assert_eq!(s.frame.input_mode, InputMode::Typing);

    s.dm_text = "A".to_string();
    s.step(press(KeyCode::Backspace));
    assert_eq!(s.dm_text, "");
    assert_eq!(s.frame.input_mode, InputMode::Navigation);
}

#[test]
fn n_opens_the_composer_only_on_a_board() {
    let mut s = main_ui(Tab::Posts);
    s.frame.community_open = true;
    s.step(press(KeyCode::Char('n')));
    assert!(matches!(s.composer_mode, Some(ComposerMode::NewPost)));
    assert_eq!(s.frame.input_mode, InputMode::Typing);

    let mut home = main_ui(Tab::Posts);
    assert_eq!(home.step(press(KeyCode::Char('n'))), UiAction::Posts(PostsCommand::Nothing));
    assert!(home.composer_mode.is_none());

    let mut ctrl = main_ui(Tab::Posts);
    ctrl.frame.community_open = true;
    let e = KeyEvent {
        code: KeyCode::Char('n'),
        modifiers: KeyModifiers { shift: false, control: true, alt: false },
        is_press: true,
    };
    ctrl.step(e);
    assert!(!ctrl.overlays.new_conversation_modal_open);
}

#[test]
fn other_routes_go_to_the_caller_unchanged() {
    let mut s = main_ui(Tab::Posts);
    s.frame.community_open = true;
    s.overlays.filter_modal_open = true;
    assert_eq!(s.step(press(KeyCode::Char('j'))), UiAction::Route(KeyRoute::FilterModal));
    assert!(s.overlays.filter_modal_open);
    let mut a = UiState::new(false);
    assert_eq!(a.step(press(KeyCode::Char('j'))), UiAction::Route(KeyRoute::AuthKeys));
}

#[test]
fn leaving_unsaved_settings_by_tab_asks_first() {
    let mut s = main_ui(Tab::Settings);
    s.frame.settings_unsaved = true;
    s.request_tab_switch(Tab::Posts);
    assert_eq!(s.frame.tab, Tab::Settings);
    assert!(s.overlays.show_save_confirmation);
    assert_eq!(s.frame.pending_tab, Some(Tab::Posts));

    let mut t = main_ui(Tab::Settings);
    t.request_tab_switch(Tab::Posts);
    assert_eq!(t.frame.tab, Tab::Posts);
    assert!(!t.overlays.show_save_confirmation);
}
