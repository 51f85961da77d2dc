use fido::keys::{down_key, up_key, KeyCode};
use fido::numfmt::{decimal_chars, i32_to_string, parse_i32, u128_to_string};
use fido::state::{
    get_modifier_key_name, validate_max_posts, ColorScheme, DiscardOutcome, MaxPostsError,
    SettingsField, SettingsState, SortOrder, Tab, UserConfig,
};
use fido::wrap::{wrap_lines_if_needed, WrapConfig};

fn cfg() -> UserConfig {
    UserConfig {
        color_scheme: ColorScheme::Default,
        sort_order: SortOrder::Newest,
        max_posts_display: 25,
        emoji_enabled: true,
    }
}

#[test]
fn numbers_print_and_parse_like_std() {
    assert_eq!(u128_to_string(0), "0");
    assert_eq!(u128_to_string(u128::MAX), u128::MAX.to_string());
    assert_eq!(decimal_chars(907), vec!['9', '0', '7']);
    for n in [0, 7, -7, 420, i32::MIN, i32::MAX] {
        assert_eq!(i32_to_string(n), n.to_string());
    }
    let p = |s: &str| parse_i32(&s.chars().collect::<Vec<char>>());
    for s in ["12", "-12", "+5", "2147483647", "-2147483648", "2147483648", "", "-", "1.5", " 1"] {
        assert_eq!(p(s), s.parse::<i32>().ok(), "{}", s);
    }
}

#[test]
fn tabs_cycle_both_ways() {
    let tabs = [Tab::Posts, Tab::Chat, Tab::DMs, Tab::Profile, Tab::Settings];
    for (i, t) in tabs.iter().enumerate() {
        assert_eq!(t.next(), tabs[(i + 1) % 5]);
        assert_eq!(t.next().previous(), *t);
    }
    assert_eq!(get_modifier_key_name(true), "Cmd");
    assert_eq!(get_modifier_key_name(false), "Ctrl");
}

#[test]
fn navigation_keys() {
    assert!(down_key(KeyCode::Down) && down_key(KeyCode::Char('j')));
    assert!(up_key(KeyCode::Up) && up_key(KeyCode::Char('k')));
    assert!(!down_key(KeyCode::Char('k')) && !up_key(KeyCode::Enter));
}

#[test]
fn max_posts_validation() {
    assert_eq!(validate_max_posts("50"), Ok(50));
    assert_eq!(validate_max_posts("0"), Err(MaxPostsError::NotPositive(0)));
    assert_eq!(validate_max_posts("-3"), Err(MaxPostsError::NotPositive(-3)));
    assert_eq!(validate_max_posts(""), Err(MaxPostsError::Empty));
    assert_eq!(validate_max_posts("abc"), Err(MaxPostsError::NotANumber));
}

#[test]
fn settings_edits_track_unsaved_changes() {
    let mut s = SettingsState::new();
    s.cycle_color_scheme(true);
    assert!(s.config.is_none());
    s.apply_loaded(cfg());
    assert_eq!(s.max_posts_input, "25");
    assert!(!s.has_unsaved_changes);
    s.cycle_color_scheme(true);
    assert_eq!(s.config.unwrap().color_scheme, ColorScheme::Dark);
    assert!(s.has_unsaved_changes);
    s.cycle_color_scheme(false);
    assert!(!s.has_unsaved_changes);
    s.cycle_sort_order(false);
    assert_eq!(s.config.unwrap().sort_order, SortOrder::Controversial);
    s.cycle_sort_order(true);
    assert!(!s.has_unsaved_changes);

    s.add_digit_to_max_posts('0');
    assert_eq!(s.max_posts_input, "250");
    s.add_digit_to_max_posts('1');
    s.add_digit_to_max_posts('x');
    assert_eq!(s.max_posts_input, "250");
    assert!(s.has_unsaved_changes);
    s.remove_digit_from_max_posts();
    assert_eq!(s.max_posts_input, "25");
    assert!(!s.has_unsaved_changes);
    s.max_posts_input = "420".to_string();
    s.step_max_posts(true);
    assert_eq!(s.max_posts_input, "420");
    s.max_posts_input = "1".to_string();
    s.step_max_posts(false);
    assert_eq!(s.max_posts_input, "1");
    s.step_max_posts(true);
    assert_eq!(s.max_posts_input, "2");
    s.max_posts_input = "x".to_string();
    s.step_max_posts(true);
    assert_eq!(s.max_posts_input, "x");

    assert_eq!(s.selected_field, SettingsField::ColorScheme);
    s.select_previous_field();
    assert_eq!(s.selected_field, SettingsField::ColorScheme);
    s.select_next_field();
    s.select_next_field();
    s.select_next_field();
    assert_eq!(s.selected_field, SettingsField::MaxPosts);
}

#[test]
fn leaving_settings_with_changes_asks_first() {
    let mut s = SettingsState::new();
    s.apply_loaded(cfg());
    assert_eq!(s.request_tab_switch(Tab::Settings, Tab::Posts), Some(Tab::Posts));
    s.cycle_sort_order(true);
    assert_eq!(s.request_tab_switch(Tab::Settings, Tab::DMs), None);
    assert!(s.show_save_confirmation);
    assert_eq!(s.pending_tab, Some(Tab::DMs));
    s.cancel_tab_switch();
    assert!(!s.show_save_confirmation && s.pending_tab.is_none());
    assert!(s.has_unsaved_changes);
    s.request_tab_switch(Tab::Settings, Tab::Chat);
    assert_eq!(s.confirm_discard_changes(), DiscardOutcome::SwitchTo(Tab::Chat));
    assert!(!s.has_unsaved_changes);

    s.has_unsaved_changes = true;
    assert!(!s.request_exit(true));
    assert!(s.show_save_confirmation);
    assert_eq!(s.confirm_discard_changes(), DiscardOutcome::Logout);
    assert!(s.request_exit(true));
    s.has_unsaved_changes = true;
    assert!(s.request_exit(false));
}

#[test]
fn wrapping_the_typed_line() {
    let lines = vec!["hello world foo".to_string()];
    let w = wrap_lines_if_needed(&lines, 0, 15, WrapConfig { wrap_width: 8 }).unwrap();
    assert_eq!(w.lines, vec!["hello".to_string(), "world foo".to_string()]);
    assert_eq!((w.row, w.col), (1, 9));
    assert!(wrap_lines_if_needed(&lines, 0, 3, WrapConfig::composer()).is_none());
    assert!(wrap_lines_if_needed(&lines, 4, 3, WrapConfig { wrap_width: 2 }).is_none());
    let nospace = vec!["abcdefghij".to_string(), "next".to_string()];
    let w = wrap_lines_if_needed(&nospace, 0, 2, WrapConfig { wrap_width: 4 }).unwrap();
    assert_eq!(w.lines, vec!["abcd".to_string(), "efghij".to_string(), "next".to_string()]);
    assert_eq!((w.row, w.col), (1, 6));
    assert_eq!(WrapConfig::dm_panel().wrap_width, 110);
}
