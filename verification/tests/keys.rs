use fido::composer::{ComposerMode, ComposerState};
use fido::ui::UiState;
use fido::conversations::{handle_dms_keys, input_mode_after_edit, DmCommand};
use fido::dms::{DMSelection, DMsState};
use fido::keys::{KeyCode, KeyEvent, KeyModifiers};
use fido::route::{
    handle_chat_keys, handle_filter_modal_keys, handle_key_event, handle_main_keys,
    handle_notifications_panel_keys, handle_post_detail_keys, handle_posts_keys,
    handle_profile_keys, handle_settings_keys, ChatCommand, DetailCommand, FilterCommand,
    KeyContext, KeyRoute, MainCommand, NotificationsCommand, PostsCommand, ProfileCommand,
    SettingsCommand,
};
use fido::state::{
    ColorScheme, FilterTab, InputMode, Screen, SettingsField, SettingsState, SortOrder, Tab,
    UserConfig,
};

fn ctx() -> KeyContext {
    KeyContext {
        show_help: false,
        profile_view_open: false,
        show_save_confirmation: false,
        show_community_modal: false,
        notifications_open: false,
        filter_modal_open: false,
        filter_add_input_open: false,
        composer_open: false,
        new_conversation_modal_open: false,
        dm_error_shown: false,
        friends_modal_open: false,
        user_search_open: false,
        hashtags_modal_open: false,
        viewing_post_detail: false,
        detail_delete_confirmation: false,
        detail_full_post_modal: false,
        input_mode: InputMode::Navigation,
        screen: Screen::Main,
        tab: Tab::Posts,
        settings_unsaved: false,
        home_board_open: false,
    }
}

fn ui(tab: Tab) -> UiState {
    let mut s = UiState::new(false);
    s.frame.screen = Screen::Main;
    s.frame.tab = tab;
    s
}

fn key_event(code: KeyCode) -> KeyEvent {
    KeyEvent::press(code)
}

#[test]
fn test_escape_closes_help_modal_first() {
    let mut s = ui(Tab::Posts);
    s.overlays.show_help = true;
    s.step(key_event(KeyCode::Esc));
    assert!(!s.overlays.show_help);
    assert!(s.frame.running);
    let mut c = ctx();
    c.show_help = true;
    assert_eq!(handle_key_event(key_event(KeyCode::Esc), &c), KeyRoute::ToggleHelp);
}

#[test]
fn test_question_mark_toggles_help() {
    let mut s = ui(Tab::Posts);
    s.step(key_event(KeyCode::Char('?')));
    assert!(s.overlays.show_help);
    s.step(key_event(KeyCode::Char('?')));
    assert!(!s.overlays.show_help);
    let mut c = ctx();
    assert_eq!(handle_key_event(key_event(KeyCode::Char('?')), &c), KeyRoute::ToggleHelp);
    c.show_help = true;
    assert_eq!(handle_key_event(key_event(KeyCode::Char('?')), &c), KeyRoute::ToggleHelp);
}

#[test]
fn test_escape_closes_save_confirmation_modal() {
    let mut s = ui(Tab::Settings);
    s.overlays.show_save_confirmation = true;
    s.frame.pending_tab = Some(Tab::Posts);
    s.step(key_event(KeyCode::Esc));
    assert!(!s.overlays.show_save_confirmation);
    assert_eq!(s.frame.pending_tab, None);
    assert!(s.frame.running);
    let mut c = ctx();
    c.tab = Tab::Settings;
    c.show_save_confirmation = true;
    assert_eq!(handle_key_event(key_event(KeyCode::Esc), &c), KeyRoute::CancelTabSwitch);

    let mut settings = SettingsState::new();
    settings.show_save_confirmation = true;
    settings.pending_tab = Some(Tab::Posts);
    settings.cancel_tab_switch();
    assert!(!settings.show_save_confirmation);
    assert_eq!(settings.pending_tab, None);
}

#[test]
fn test_escape_closes_bio_modal() {
    let mut s = ui(Tab::Profile);
    s.composer_mode = Some(ComposerMode::EditBio);
    s.composer_text = "bio".to_string();
    s.step(key_event(KeyCode::Esc));
    assert!(s.composer_mode.is_none());
    assert_eq!(s.composer_text, "");
    assert!(s.frame.running);
    let mut c = ctx();
    c.composer_open = true;
    assert_eq!(handle_key_event(key_event(KeyCode::Esc), &c), KeyRoute::CloseComposer);
    let mut composer = ComposerState::new();
    let mut mode = InputMode::Typing;
    composer.open_composer_edit_bio(&mut mode);
    composer.close_composer(&mut mode);
    assert!(composer.mode.is_none());
    assert_eq!(mode, InputMode::Navigation);
}

#[test]
fn test_escape_closes_new_post_modal() {
    let mut s = ui(Tab::Posts);
    s.composer_mode = Some(ComposerMode::NewPost);
    s.composer_text = "Test post".to_string();
    s.step(key_event(KeyCode::Esc));
    assert!(s.composer_mode.is_none());
    assert_eq!(s.composer_text, "");
    assert!(s.frame.running);
    let mut c = ctx();
    c.composer_open = true;
    assert_eq!(handle_key_event(key_event(KeyCode::Esc), &c), KeyRoute::CloseComposer);
    let mut composer = ComposerState::new();
    let mut mode = InputMode::Navigation;
    composer.open_composer_new_post(&mut mode);
    assert!(matches!(composer.mode, Some(ComposerMode::NewPost)));
    composer.close_composer(&mut mode);
    assert!(composer.mode.is_none());
}

#[test]
fn test_escape_closes_new_conversation_modal() {
    let mut s = ui(Tab::DMs);
    s.overlays.new_conversation_modal_open = true;
    s.new_conversation_username = "testuser".to_string();
    s.step(key_event(KeyCode::Esc));
    assert!(!s.overlays.new_conversation_modal_open);
    assert_eq!(s.new_conversation_username, "");
    assert!(s.frame.running);
    let mut c = ctx();
    c.new_conversation_modal_open = true;
    assert_eq!(handle_key_event(key_event(KeyCode::Esc), &c), KeyRoute::CloseNewConversation);
    let mut dms = DMsState::new();
    dms.show_new_conversation_modal = true;
    dms.new_conversation_username = "testuser".to_string();
    let mut mode = InputMode::Typing;
    dms.close_new_conversation_modal(&mut mode);
    assert!(!dms.show_new_conversation_modal);
    assert_eq!(dms.new_conversation_username, "");
}

#[test]
fn test_escape_exits_app_when_no_modals() {
    let mut s = ui(Tab::Posts);
    s.frame.launched_in_repo = true;
    s.frame.community_open = true;
    s.step(key_event(KeyCode::Esc));
    assert!(!s.frame.running);
    assert_eq!(handle_key_event(key_event(KeyCode::Esc), &ctx()), KeyRoute::Quit);
}

#[test]
fn test_escape_returns_to_home_list_from_opened_community() {
    let mut s = ui(Tab::Posts);
    s.frame.community_open = true;
    s.step(key_event(KeyCode::Esc));
    assert!(!s.frame.community_open, "Board should close back to Home");
    assert!(s.frame.running, "App should still be running");
    s.step(key_event(KeyCode::Esc));
    assert!(!s.frame.running, "App should stop running from Home");
    // Home mode (no launch repo) with a community opened from the list
    let mut c = ctx();
    c.home_board_open = true;
    assert_eq!(handle_key_event(key_event(KeyCode::Esc), &c), KeyRoute::CloseCommunity);
    // Back on the Home list, a second Escape quits
    c.home_board_open = false;
    assert_eq!(handle_key_event(key_event(KeyCode::Esc), &c), KeyRoute::Quit);
}

#[test]
fn test_escape_quits_in_repo_mode() {
    let mut s = UiState::new(true);
    s.frame.screen = Screen::Main;
    s.frame.community_open = true;
    s.step(key_event(KeyCode::Esc));
    assert!(!s.frame.running);
    let c = ctx();
    assert_eq!(handle_key_event(key_event(KeyCode::Esc), &c), KeyRoute::Quit);
}

#[test]
fn test_i_opens_community_modal_and_escape_closes_it() {
    let mut s = ui(Tab::Posts);
    s.frame.community_open = true;
    s.step(key_event(KeyCode::Char('i')));
    assert!(s.overlays.show_community_modal);
    s.step(key_event(KeyCode::Esc));
    assert!(!s.overlays.show_community_modal);
    assert!(s.frame.community_open);
    assert!(s.frame.running);
    assert_eq!(
        handle_posts_keys(KeyCode::Char('i'), false, false, true),
        PostsCommand::ShowCommunityModal
    );
    let mut c = ctx();
    c.show_community_modal = true;
    assert_eq!(handle_key_event(key_event(KeyCode::Esc), &c), KeyRoute::CloseCommunityModal);
    assert_eq!(
        handle_key_event(key_event(KeyCode::Char('x')), &c),
        KeyRoute::CommunityModalSwallow
    );
}

#[test]
fn test_home_list_navigation_keys() {
    assert_eq!(handle_posts_keys(KeyCode::Char('n'), false, true, false), PostsCommand::Nothing);
    assert_eq!(
        handle_posts_keys(KeyCode::Down, false, true, false),
        PostsCommand::NextHomeCommunity
    );
    assert_eq!(
        handle_posts_keys(KeyCode::Char('k'), false, true, false),
        PostsCommand::PreviousHomeCommunity
    );
}

#[test]
fn test_escape_shows_save_confirmation_in_settings_with_unsaved_changes() {
    let mut s = ui(Tab::Settings);
    s.frame.settings_unsaved = true;
    s.step(key_event(KeyCode::Esc));
    assert!(s.overlays.show_save_confirmation);
    assert_eq!(s.frame.pending_tab, None);
    assert!(s.frame.running);
    let mut c = ctx();
    c.tab = Tab::Settings;
    c.settings_unsaved = true;
    assert_eq!(handle_key_event(key_event(KeyCode::Esc), &c), KeyRoute::ConfirmExit);
    let mut settings = SettingsState::new();
    settings.has_unsaved_changes = true;
    assert!(!settings.request_exit(true));
    assert!(settings.show_save_confirmation);
    assert_eq!(settings.pending_tab, None);
}

#[test]
fn test_modal_priority_help_over_bio() {
    let mut s = ui(Tab::Profile);
    s.overlays.show_help = true;
    s.overlays.show_edit_bio_modal = true;
    s.step(key_event(KeyCode::Esc));
    assert!(!s.overlays.show_help);
    assert!(s.overlays.show_edit_bio_modal);
    assert!(s.frame.running);
    let mut c = ctx();
    c.show_help = true;
    c.composer_open = true;
    assert_eq!(handle_key_event(key_event(KeyCode::Esc), &c), KeyRoute::ToggleHelp);
}

#[test]
fn test_modal_priority_save_confirmation_over_bio() {
    let mut s = ui(Tab::Settings);
    s.overlays.show_save_confirmation = true;
    s.frame.pending_tab = Some(Tab::Posts);
    s.overlays.show_edit_bio_modal = true;
    s.step(key_event(KeyCode::Esc));
    assert!(!s.overlays.show_save_confirmation);
    assert_eq!(s.frame.pending_tab, None);
    assert!(s.overlays.show_edit_bio_modal);
    assert!(s.frame.running);
    let mut c = ctx();
    c.show_save_confirmation = true;
    c.composer_open = true;
    assert_eq!(handle_key_event(key_event(KeyCode::Esc), &c), KeyRoute::CancelTabSwitch);
}

#[test]
fn test_q_key_exits_app() {
    let mut s = ui(Tab::Posts);
    s.step(key_event(KeyCode::Char('q')));
    assert!(!s.frame.running);
    assert_eq!(handle_key_event(key_event(KeyCode::Char('q')), &ctx()), KeyRoute::Quit);
}

#[test]
fn test_q_key_shows_save_confirmation_in_settings_with_unsaved_changes() {
    let mut s = ui(Tab::Settings);
    s.frame.settings_unsaved = true;
    s.step(key_event(KeyCode::Char('q')));
    assert!(s.overlays.show_save_confirmation);
    assert_eq!(s.frame.pending_tab, None);
    assert!(s.frame.running);
    let mut c = ctx();
    c.tab = Tab::Settings;
    c.settings_unsaved = true;
    assert_eq!(handle_key_event(key_event(KeyCode::Char('q')), &c), KeyRoute::ConfirmExit);
}

#[test]
fn test_settings_cycling() {
    let mut settings = SettingsState::new();
    settings.apply_loaded(UserConfig {
        color_scheme: ColorScheme::Default,
        sort_order: SortOrder::Newest,
        max_posts_display: 25,
        emoji_enabled: true,
    });
    settings.selected_field = SettingsField::ColorScheme;
    let initial_color = settings.config.unwrap().color_scheme;
    assert_eq!(
        handle_settings_keys(KeyCode::Left, SettingsField::ColorScheme, false),
        SettingsCommand::CycleColorScheme { forward: false }
    );
    settings.cycle_color_scheme(false);
    assert_ne!(settings.config.unwrap().color_scheme, initial_color);
    assert_eq!(
        handle_settings_keys(KeyCode::Right, SettingsField::ColorScheme, false),
        SettingsCommand::CycleColorScheme { forward: true }
    );
    settings.cycle_color_scheme(true);
    assert_eq!(settings.config.unwrap().color_scheme, initial_color);

    settings.selected_field = SettingsField::SortOrder;
    let initial_sort = settings.config.unwrap().sort_order;
    settings.cycle_sort_order(false);
    assert_ne!(settings.config.unwrap().sort_order, initial_sort);
    settings.cycle_sort_order(true);
    assert_eq!(settings.config.unwrap().sort_order, initial_sort);
}

#[test]
fn test_unread_indicator_clears_when_opening_conversation() {
    let mut dms = DMsState::new();
    dms.unread_counts.insert(7, 5);
    dms.mark_conversation_as_read(7);
    assert_eq!(*dms.unread_counts.get(&7).unwrap(), 0);
    assert_eq!(dms.current_conversation_user, Some(7));
}

#[test]
fn test_unread_badge_updates_correctly_on_dms_tab() {
    let mut dms = DMsState::new();
    dms.unread_counts.insert(1, 3);
    dms.unread_counts.insert(2, 5);
    dms.unread_counts.insert(3, 0);
    let total: usize = dms.unread_counts.values().sum();
    assert_eq!(total, 8);
    dms.mark_conversation_as_read(1);
    let total: usize = dms.unread_counts.values().sum();
    assert_eq!(total, 5);
}

#[test]
fn test_n_can_be_typed_in_dm_messages() {
    let mut s = ui(Tab::DMs);
    s.frame.input_mode = InputMode::Typing;
    s.dm_text = "Hello ".to_string();
    s.step(key_event(KeyCode::Char('N')));
    assert_eq!(s.dm_text, "Hello N");
    s.step(key_event(KeyCode::Char('n')));
    assert_eq!(s.dm_text, "Hello Nn");
    let mut c = ctx();
    c.tab = Tab::DMs;
    c.input_mode = InputMode::Typing;
    assert_eq!(handle_key_event(key_event(KeyCode::Char('N')), &c), KeyRoute::MainKeys);
    assert_eq!(
        handle_dms_keys(KeyCode::Char('N'), InputMode::Typing, DMSelection::NewConversation, 0),
        DmCommand::EditDraft
    );
    assert_eq!(
        handle_dms_keys(KeyCode::Char('n'), InputMode::Typing, DMSelection::NewConversation, 0),
        DmCommand::EditDraft
    );
}

#[test]
fn test_u_and_d_can_be_typed_in_post_compose_box() {
    assert_eq!(handle_posts_keys(KeyCode::Char('u'), true, false, true), PostsCommand::TypeChar('u'));
    assert_eq!(handle_posts_keys(KeyCode::Char('d'), true, false, true), PostsCommand::TypeChar('d'));
    let mut posts = fido::feed::PostsState::new();
    posts.new_post_content = "Test ".to_string();
    posts.add_char_to_post('u');
    assert_eq!(posts.new_post_content, "Test u");
    posts.add_char_to_post('d');
    assert_eq!(posts.new_post_content, "Test ud");
}

#[test]
fn test_n_shows_new_post_modal_on_posts_tab() {
    let mut s = ui(Tab::Posts);
    s.frame.community_open = true;
    s.step(key_event(KeyCode::Char('n')));
    assert!(matches!(s.composer_mode, Some(ComposerMode::NewPost)));
    let mut home = ui(Tab::Posts);
    home.step(key_event(KeyCode::Char('n')));
    assert!(home.composer_mode.is_none());
    assert_eq!(handle_key_event(key_event(KeyCode::Char('n')), &ctx()), KeyRoute::MainKeys);
    assert_eq!(handle_main_keys(KeyCode::Char('n'), Tab::Posts), MainCommand::Tab(Tab::Posts));
    assert_eq!(handle_posts_keys(KeyCode::Char('n'), false, false, true), PostsCommand::OpenComposer);
    let mut composer = ComposerState::new();
    let mut mode = InputMode::Navigation;
    composer.open_composer_new_post(&mut mode);
    assert!(matches!(composer.mode, Some(ComposerMode::NewPost)));
    assert_eq!(mode, InputMode::Typing);
}

#[test]
fn test_escape_hides_new_post_modal_and_returns_to_navigation() {
    let mut s = ui(Tab::Posts);
    s.composer_mode = Some(ComposerMode::NewPost);
    s.frame.input_mode = InputMode::Typing;
    s.step(key_event(KeyCode::Esc));
    assert!(s.composer_mode.is_none());
    assert_eq!(s.frame.input_mode, InputMode::Navigation);
    let mut c = ctx();
    c.composer_open = true;
    c.input_mode = InputMode::Typing;
    assert_eq!(handle_key_event(key_event(KeyCode::Esc), &c), KeyRoute::CloseComposer);
    let mut composer = ComposerState::new();
    let mut mode = InputMode::Typing;
    composer.open_composer_new_post(&mut mode);
    composer.close_composer(&mut mode);
    assert!(composer.mode.is_none());
    assert_eq!(mode, InputMode::Navigation);
}

#[test]
fn test_input_mode_switches_correctly_between_typing_and_navigation() {
    let mut s = ui(Tab::DMs);
    s.step(key_event(KeyCode::Char('H')));
    assert_eq!(s.frame.input_mode, InputMode::Typing);
    assert_eq!(s.dm_text, "H");
    s.step(key_event(KeyCode::Esc));
    assert_eq!(s.frame.input_mode, InputMode::Navigation);
    assert_eq!(s.dm_text, "");
    assert_eq!(
        handle_dms_keys(KeyCode::Char('H'), InputMode::Navigation, DMSelection::NewConversation, 0),
        DmCommand::StartTyping
    );
    assert_eq!(
        handle_dms_keys(KeyCode::Esc, InputMode::Typing, DMSelection::NewConversation, 0),
        DmCommand::ClearDraft
    );
}

#[test]
fn test_typing_mode_prevents_navigation_shortcuts() {
    assert_eq!(handle_posts_keys(KeyCode::Char('u'), true, false, true), PostsCommand::TypeChar('u'));
    let mut posts = fido::feed::PostsState::new();
    posts.show_new_post_modal = true;
    posts.add_char_to_post('u');
    assert_eq!(posts.new_post_content, "u");
}

#[test]
fn test_navigation_mode_allows_shortcuts() {
    assert_eq!(handle_posts_keys(KeyCode::Char('n'), false, false, true), PostsCommand::OpenComposer);
    assert_eq!(handle_posts_keys(KeyCode::Char('j'), false, false, true), PostsCommand::NextPost);
    assert_eq!(handle_posts_keys(KeyCode::Char('f'), false, false, true), PostsCommand::OpenFilter);
    assert_eq!(handle_posts_keys(KeyCode::Char('s'), false, false, true), PostsCommand::OpenUserSearch);
}

#[test]
fn test_backspace_clears_input_and_returns_to_navigation() {
    let mut s = ui(Tab::DMs);
    s.frame.input_mode = InputMode::Typing;
    s.dm_text = "A".to_string();
    s.step(key_event(KeyCode::Backspace));
    assert_eq!(s.dm_text, "");
    assert_eq!(s.frame.input_mode, InputMode::Navigation);
    assert_eq!(
        handle_dms_keys(KeyCode::Backspace, InputMode::Typing, DMSelection::Conversation(0), 1),
        DmCommand::EditDraft
    );
    assert_eq!(input_mode_after_edit(KeyCode::Backspace, true), InputMode::Navigation);
    assert_eq!(input_mode_after_edit(KeyCode::Backspace, false), InputMode::Typing);
    assert_eq!(input_mode_after_edit(KeyCode::Char('a'), true), InputMode::Typing);
}

#[test]
fn test_ctrl_n_does_not_trigger_on_other_tabs() {
    let e = KeyEvent {
        code: KeyCode::Char('n'),
        modifiers: KeyModifiers { shift: false, control: true, alt: false },
        is_press: true,
    };
    assert_eq!(handle_key_event(e, &ctx()), KeyRoute::MainKeys);
    assert_eq!(handle_main_keys(e.code, Tab::Posts), MainCommand::Tab(Tab::Posts));
}

#[test]
fn test_unread_counts_persist_across_navigation() {
    let mut dms = DMsState::new();
    dms.unread_counts.insert(1, 3);
    dms.unread_counts.insert(2, 7);
    dms.selection = DMSelection::Conversation(0);
    dms.selection = DMSelection::Conversation(1);
    assert_eq!(*dms.unread_counts.get(&1).unwrap(), 3);
    assert_eq!(*dms.unread_counts.get(&2).unwrap(), 7);
}

#[test]
fn test_current_conversation_user_tracks_open_conversation() {
    let mut dms = DMsState::new();
    assert_eq!(dms.current_conversation_user, None);
    dms.mark_conversation_as_read(9);
    assert_eq!(dms.current_conversation_user, Some(9));
}

#[test]
fn ctrl_c_quits_over_every_overlay_and_releases_are_ignored() {
    let mut c = ctx();
    c.show_help = true;
    c.composer_open = true;
    c.input_mode = InputMode::Typing;
    let e = KeyEvent {
        code: KeyCode::Char('c'),
        modifiers: KeyModifiers { shift: false, control: true, alt: false },
        is_press: true,
    };
    assert_eq!(handle_key_event(e, &c), KeyRoute::Quit);
    let release = KeyEvent { is_press: false, ..e };
    assert_eq!(handle_key_event(release, &c), KeyRoute::Ignore);
}

#[test]
fn overlays_route_in_priority_order() {
    let mut c = ctx();
    c.profile_view_open = true;
    c.friends_modal_open = true;
    assert_eq!(handle_key_event(key_event(KeyCode::Esc), &c), KeyRoute::ProfileView);
    let mut c = ctx();
    c.filter_modal_open = true;
    c.filter_add_input_open = true;
    assert_eq!(handle_key_event(key_event(KeyCode::Esc), &c), KeyRoute::CloseFilterAddInput);
    c.filter_add_input_open = false;
    assert_eq!(handle_key_event(key_event(KeyCode::Esc), &c), KeyRoute::CancelFilterModal);
    assert_eq!(handle_key_event(key_event(KeyCode::Char('a')), &c), KeyRoute::FilterModal);
    let mut c = ctx();
    c.composer_open = true;
    c.viewing_post_detail = true;
    assert_eq!(handle_key_event(key_event(KeyCode::Enter), &c), KeyRoute::MainKeys);
    let mut c = ctx();
    c.tab = Tab::DMs;
    c.dm_error_shown = true;
    assert_eq!(handle_key_event(key_event(KeyCode::Esc), &c), KeyRoute::ClearDmError);
    let mut c = ctx();
    c.viewing_post_detail = true;
    c.detail_delete_confirmation = true;
    assert_eq!(handle_key_event(key_event(KeyCode::Esc), &c), KeyRoute::CancelDelete);
    c.detail_delete_confirmation = false;
    assert_eq!(handle_key_event(key_event(KeyCode::Esc), &c), KeyRoute::ClosePostDetail);
    let mut c = ctx();
    c.screen = Screen::Auth;
    assert_eq!(handle_key_event(key_event(KeyCode::Char('j')), &c), KeyRoute::AuthKeys);
    c.input_mode = InputMode::Typing;
    assert_eq!(handle_key_event(key_event(KeyCode::Char('q')), &c), KeyRoute::AuthKeys);
}

#[test]
fn tab_specific_commands() {
    assert_eq!(handle_main_keys(KeyCode::Tab, Tab::DMs), MainCommand::NextTab);
    assert_eq!(handle_main_keys(KeyCode::BackTab, Tab::DMs), MainCommand::PreviousTab);
    assert_eq!(handle_settings_keys(KeyCode::Char('7'), SettingsField::MaxPosts, false), SettingsCommand::AddDigit('7'));
    assert_eq!(handle_settings_keys(KeyCode::Char('s'), SettingsField::ColorScheme, false), SettingsCommand::Save);
    assert_eq!(handle_settings_keys(KeyCode::Char('n'), SettingsField::ColorScheme, true), SettingsCommand::Discard);
    assert_eq!(handle_settings_keys(KeyCode::Enter, SettingsField::MaxPosts, false), SettingsCommand::StepMaxPosts { up: true });
    assert_eq!(handle_filter_modal_keys(KeyCode::Enter, FilterTab::Hashtags, false, true), FilterCommand::OpenAddInput);
    assert_eq!(handle_filter_modal_keys(KeyCode::Char('x'), FilterTab::Users, false, false), FilterCommand::Nothing);
    assert_eq!(handle_filter_modal_keys(KeyCode::Char('x'), FilterTab::Hashtags, true, false), FilterCommand::TypeHashtag('x'));
    assert_eq!(handle_chat_keys(KeyCode::Enter, InputMode::Navigation), ChatCommand::FocusInput);
    assert_eq!(handle_chat_keys(KeyCode::Enter, InputMode::Typing), ChatCommand::Send);
    assert_eq!(handle_notifications_panel_keys(KeyCode::Char('v')), NotificationsCommand::Close);
    assert_eq!(handle_profile_keys(KeyCode::Char('e'), false), ProfileCommand::Nothing);
    assert_eq!(handle_profile_keys(KeyCode::Char('e'), true), ProfileCommand::EditBio);
    let x = KeyEvent::press(KeyCode::Char('x'));
    assert_eq!(handle_post_detail_keys(x, false, false, false), DetailCommand::ShowDeleteConfirmation);
    assert_eq!(handle_post_detail_keys(x, false, true, false), DetailCommand::ReplyTypeChar('x'));
    assert_eq!(handle_post_detail_keys(KeyEvent::press(KeyCode::Enter), true, false, false), DetailCommand::ModalToggle);
    assert_eq!(handle_dms_keys(KeyCode::Char('a'), InputMode::Navigation, DMSelection::Request(0), 0), DmCommand::AcceptRequest);
    assert_eq!(handle_dms_keys(KeyCode::Char('q'), InputMode::Navigation, DMSelection::Request(0), 0), DmCommand::Nothing);
    assert_eq!(handle_dms_keys(KeyCode::Enter, InputMode::Navigation, DMSelection::Conversation(3), 2), DmCommand::Nothing);
}
