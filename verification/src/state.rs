//! Screens, tabs, input modes and the settings tab with its unsaved-change
//! tracking.
use vstd::prelude::*;
use crate::numfmt::{i32_to_string, int_text, parse_i32, spec_parse_i32};
use crate::text::{chars_of, concat, seq_eq, string_from_chars};

verus! {

/// Name of the modifier key shown in hints: "Cmd" on macOS, "Ctrl" elsewhere.
pub fn get_modifier_key_name(is_macos: bool) -> (r: &'static str)
    ensures
        r@ == (if is_macos {
            "Cmd"@
        } else {
            "Ctrl"@
        }),
{
    if is_macos {
        "Cmd"
    } else {
        "Ctrl"
    }
}

/// Whether keys browse (shortcuts active) or type into an input.
#[derive(Debug, Clone, Copy, PartialEq, Eq, Structural)]
pub enum InputMode {
    Navigation,
    Typing,
}

/// Which settings row is selected.
#[derive(Debug, Clone, Copy, PartialEq, Eq, Structural)]
pub enum SettingsField {
    ColorScheme,
    SortOrder,
    MaxPosts,
}

/// Tabs of the social-connections modal.
#[derive(Debug, Clone, Copy, PartialEq, Eq, Structural)]
pub enum SocialTab {
    Following,
    Followers,
    MutualFriends,
}

/// Tabs of the post filter modal.
#[derive(Debug, Clone, Copy, PartialEq, Eq, Structural)]
pub enum FilterTab {
    All,
    Hashtags,
    Users,
}

/// Top-level screen.
#[derive(Debug, Clone, Copy, PartialEq, Eq, Structural)]
pub enum Screen {
    Auth,
    Main,
}

/// Main tabs, in display order.
#[derive(Debug, Clone, Copy, PartialEq, Eq, Structural)]
pub enum Tab {
    Posts,
    Chat,
    DMs,
    Profile,
    Settings,
}

pub open spec fn spec_tab_next(t: Tab) -> Tab {
    match t {
        Tab::Posts => Tab::Chat,
        Tab::Chat => Tab::DMs,
        Tab::DMs => Tab::Profile,
        Tab::Profile => Tab::Settings,
        Tab::Settings => Tab::Posts,
    }
}

pub open spec fn spec_tab_previous(t: Tab) -> Tab {
    match t {
        Tab::Posts => Tab::Settings,
        Tab::Chat => Tab::Posts,
        Tab::DMs => Tab::Chat,
        Tab::Profile => Tab::DMs,
        Tab::Settings => Tab::Profile,
    }
}

impl Tab {
    /// The tab loads its data when it is shown: the profile, the DMs and
    /// the settings.
    pub fn needs_data_load(&self) -> (r: bool)
        ensures
            r == (*self == Tab::Profile || *self == Tab::DMs || *self == Tab::Settings),
    {
        match self {
            Tab::Profile | Tab::DMs | Tab::Settings => true,
            _ => false,
        }
    }

    /// The tab to the right, wrapping around.
    pub fn next(&self) -> (r: Tab)
        ensures
            r == spec_tab_next(*self),
    {
        match self {
            Tab::Posts => Tab::Chat,
            Tab::Chat => Tab::DMs,
            Tab::DMs => Tab::Profile,
            Tab::Profile => Tab::Settings,
            Tab::Settings => Tab::Posts,
        }
    }

    /// The tab to the left, wrapping around.
    pub fn previous(&self) -> (r: Tab)
        ensures
            r == spec_tab_previous(*self),
    {
        match self {
            Tab::Posts => Tab::Settings,
            Tab::Chat => Tab::Posts,
            Tab::DMs => Tab::Chat,
            Tab::Profile => Tab::DMs,
            Tab::Settings => Tab::Profile,
        }
    }
}

/// Going right then left (or left then right) returns to the same tab, and
/// five steps right visit every tab once and come back.
pub proof fn lemma_tab_cycle(t: Tab)
    ensures
        spec_tab_previous(spec_tab_next(t)) == t,
        spec_tab_next(spec_tab_previous(t)) == t,
        spec_tab_next(spec_tab_next(spec_tab_next(spec_tab_next(spec_tab_next(t))))) == t,
        spec_tab_next(t) != t,
{
}

/// The post filter in effect.
#[derive(Debug, Clone, PartialEq, Eq)]
pub enum PostFilter {
    All,
    /// Posts with any of these hashtags or by any of these users.
    Multi { hashtags: Vec<String>, users: Vec<String> },
}

/// State of the filter modal.
pub struct FilterModalState {
    pub selected_tab: FilterTab,
    pub hashtag_list: Vec<String>,
    pub user_list: Vec<String>,
    pub selected_index: usize,
    pub search_input: String,
    pub search_mode: bool,
    pub search_results: Vec<String>,
    /// Hashtags checked for the multi-select filter.
    pub checked_hashtags: Vec<String>,
    /// Users checked for the multi-select filter.
    pub checked_users: Vec<String>,
    pub show_add_hashtag_input: bool,
    pub add_hashtag_input: String,
}

impl FilterModalState {
    /// The modal on its "All" tab with nothing listed or checked.
    pub fn new() -> (s: Self)
        ensures
            s.selected_tab == FilterTab::All,
            s.hashtag_list@.len() == 0,
            s.user_list@.len() == 0,
            s.selected_index == 0,
            s.checked_hashtags@.len() == 0,
            s.checked_users@.len() == 0,
            !s.search_mode,
            s.search_input@.len() == 0,
            s.search_results@.len() == 0,
            !s.show_add_hashtag_input,
            s.add_hashtag_input@.len() == 0,
    {
        FilterModalState {
            selected_tab: FilterTab::All,
            hashtag_list: Vec::new(),
            user_list: Vec::new(),
            selected_index: 0,
            search_input: String::new(),
            search_mode: false,
            search_results: Vec::new(),
            checked_hashtags: Vec::new(),
            checked_users: Vec::new(),
            show_add_hashtag_input: false,
            add_hashtag_input: String::new(),
        }
    }
}

/// State of the followed-hashtags modal.
pub struct HashtagsState {
    pub hashtags: Vec<String>,
    pub show_hashtags_modal: bool,
    pub show_add_hashtag_input: bool,
    pub add_hashtag_name: String,
    pub selected_hashtag: usize,
    pub error: Option<String>,
    pub loading: bool,
    pub show_unfollow_confirmation: bool,
    pub hashtag_to_unfollow: Option<String>,
}

/// Colour scheme of the interface.
#[derive(Debug, Clone, Copy, PartialEq, Eq, Structural)]
pub enum ColorScheme {
    Default,
    Dark,
    Light,
    Solarized,
}

/// Order of the feed.
#[derive(Debug, Clone, Copy, PartialEq, Eq, Structural)]
pub enum SortOrder {
    Newest,
    Popular,
    Controversial,
}

impl SortOrder {
    /// The name the server knows the order by.
    pub fn as_str(&self) -> (r: &'static str)
        ensures
            r@ == (match *self {
                SortOrder::Newest => "Newest"@,
                SortOrder::Popular => "Popular"@,
                SortOrder::Controversial => "Controversial"@,
            }),
    {
        match self {
            SortOrder::Newest => "Newest",
            SortOrder::Popular => "Popular",
            SortOrder::Controversial => "Controversial",
        }
    }
}

/// The user's display settings as stored on the server.
#[derive(Debug, Clone, Copy, PartialEq, Eq, Structural)]
pub struct UserConfig {
    pub color_scheme: ColorScheme,
    pub sort_order: SortOrder,
    pub max_posts_display: i32,
    pub emoji_enabled: bool,
}

pub open spec fn spec_scheme_next(c: ColorScheme) -> ColorScheme {
    match c {
        ColorScheme::Default => ColorScheme::Dark,
        ColorScheme::Dark => ColorScheme::Light,
        ColorScheme::Light => ColorScheme::Solarized,
        ColorScheme::Solarized => ColorScheme::Default,
    }
}

pub open spec fn spec_scheme_previous(c: ColorScheme) -> ColorScheme {
    match c {
        ColorScheme::Default => ColorScheme::Solarized,
        ColorScheme::Dark => ColorScheme::Default,
        ColorScheme::Light => ColorScheme::Dark,
        ColorScheme::Solarized => ColorScheme::Light,
    }
}

pub open spec fn spec_sort_next(s: SortOrder) -> SortOrder {
    match s {
        SortOrder::Newest => SortOrder::Popular,
        SortOrder::Popular => SortOrder::Controversial,
        SortOrder::Controversial => SortOrder::Newest,
    }
}

pub open spec fn spec_sort_previous(s: SortOrder) -> SortOrder {
    match s {
        SortOrder::Newest => SortOrder::Controversial,
        SortOrder::Popular => SortOrder::Newest,
        SortOrder::Controversial => SortOrder::Popular,
    }
}

/// Cycling a setting forward and then backward (or the other way round)
/// restores it.
pub proof fn lemma_setting_cycles(c: ColorScheme, s: SortOrder)
    ensures
        spec_scheme_previous(spec_scheme_next(c)) == c,
        spec_scheme_next(spec_scheme_previous(c)) == c,
        spec_sort_previous(spec_sort_next(s)) == s,
        spec_sort_next(spec_sort_previous(s)) == s,
{
}

pub open spec fn spec_field_down(f: SettingsField) -> SettingsField {
    match f {
        SettingsField::ColorScheme => SettingsField::SortOrder,
        SettingsField::SortOrder => SettingsField::MaxPosts,
        SettingsField::MaxPosts => SettingsField::MaxPosts,
    }
}

pub open spec fn spec_field_up(f: SettingsField) -> SettingsField {
    match f {
        SettingsField::ColorScheme => SettingsField::ColorScheme,
        SettingsField::SortOrder => SettingsField::ColorScheme,
        SettingsField::MaxPosts => SettingsField::SortOrder,
    }
}

/// What leaving the settings tab or quitting asks for.
#[derive(Debug, Clone, Copy, PartialEq, Eq, Structural)]
pub enum DiscardOutcome {
    /// Switch to this tab.
    SwitchTo(Tab),
    /// No tab was pending: the user asked to log out or exit.
    Logout,
}

/// Settings tab state.
pub struct SettingsState {
    pub config: Option<UserConfig>,
    pub original_config: Option<UserConfig>,
    pub original_max_posts_input: String,
    pub loading: bool,
    pub error: Option<String>,
    pub selected_field: SettingsField,
    pub max_posts_input: String,
    pub has_unsaved_changes: bool,
    pub show_save_confirmation: bool,
    /// Tab to switch to once the confirmation is answered; `None` means exit.
    pub pending_tab: Option<Tab>,
}

/// Whether the edited settings differ from the saved ones.
pub open spec fn spec_changed(cur: UserConfig, orig: UserConfig, input: Seq<char>, orig_input: Seq<
    char,
>) -> bool {
    cur.color_scheme != orig.color_scheme || cur.sort_order != orig.sort_order || input
        != orig_input
}

/// Why the max-posts input cannot be saved.
#[derive(Debug, Clone, PartialEq, Eq)]
pub enum MaxPostsError {
    /// A number, but zero or negative.
    NotPositive(i32),
    /// Nothing typed.
    Empty,
    /// Not a number.
    NotANumber,
}

/// The max-posts value to save, or why it cannot be saved.
pub open spec fn spec_validate_max_posts(input: Seq<char>) -> Result<i32, MaxPostsError> {
    match spec_parse_i32(input) {
        Some(n) => if n > 0 {
            Ok(n)
        } else {
            Err(MaxPostsError::NotPositive(n))
        },
        None => if input.len() == 0 {
            Err(MaxPostsError::Empty)
        } else {
            Err(MaxPostsError::NotANumber)
        },
    }
}

/// Check the max-posts input before saving.
pub fn validate_max_posts(input: &str) -> (r: Result<i32, MaxPostsError>)
    ensures
        r == spec_validate_max_posts(input@),
{
    let c = chars_of(input);
    match parse_i32(c.as_slice()) {
        Some(n) => if n > 0 {
            Ok(n)
        } else {
            Err(MaxPostsError::NotPositive(n))
        },
        None => if c.len() == 0 {
            Err(MaxPostsError::Empty)
        } else {
            Err(MaxPostsError::NotANumber)
        },
    }
}

impl SettingsState {
    /// Settings before anything is loaded.
    pub fn new() -> (s: Self)
        ensures
            s.config is None,
            s.original_config is None,
            s.selected_field == SettingsField::ColorScheme,
            !s.has_unsaved_changes,
            !s.show_save_confirmation,
            s.pending_tab is None,
            s.max_posts_input@.len() == 0,
            s.original_max_posts_input@.len() == 0,
            !s.loading,
            s.error is None,
    {
        SettingsState {
            config: None,
            original_config: None,
            original_max_posts_input: String::new(),
            loading: false,
            error: None,
            selected_field: SettingsField::ColorScheme,
            max_posts_input: String::new(),
            has_unsaved_changes: false,
            show_save_confirmation: false,
            pending_tab: None,
        }
    }

    /// Settings freshly loaded from the server.
    pub fn apply_loaded(&mut self, config: UserConfig)
        ensures
            final(self).config == Some(config),
            final(self).original_config == Some(config),
            final(self).max_posts_input@ == int_text(config.max_posts_display as int),
            final(self).original_max_posts_input@ == int_text(config.max_posts_display as int),
            *final(self) == (SettingsState {
                config: Some(config),
                original_config: Some(config),
                max_posts_input: final(self).max_posts_input,
                original_max_posts_input: final(self).original_max_posts_input,
                loading: false,
                has_unsaved_changes: false,
                ..*old(self)
            }),
    {
        self.max_posts_input = i32_to_string(config.max_posts_display);
        self.original_max_posts_input = i32_to_string(config.max_posts_display);
        self.config = Some(config);
        self.original_config = Some(config);
        self.loading = false;
        self.has_unsaved_changes = false;
    }

    /// Same settings except possibly the unsaved-change flag.
    pub open spec fn same_but_flag(&self, o: &SettingsState) -> bool {
        &&& self.original_config == o.original_config
        &&& self.original_max_posts_input == o.original_max_posts_input
        &&& self.loading == o.loading
        &&& self.error == o.error
        &&& self.selected_field == o.selected_field
        &&& self.show_save_confirmation == o.show_save_confirmation
        &&& self.pending_tab == o.pending_tab
    }

    /// The unsaved-change flag after an edit: recomputed when both the edited
    /// and the saved settings are present, otherwise kept.
    pub open spec fn flag_after_edit(&self, old_flag: bool) -> bool {
        match (self.config, self.original_config) {
            (Some(c), Some(o)) => spec_changed(
                c,
                o,
                self.max_posts_input@,
                self.original_max_posts_input@,
            ),
            _ => old_flag,
        }
    }

    /// Recompute whether there are unsaved changes.
    pub fn check_settings_changes(&mut self)
        ensures
            final(self).config == old(self).config,
            final(self).max_posts_input == old(self).max_posts_input,
            final(self).same_but_flag(&*old(self)),
            final(self).has_unsaved_changes == final(self).flag_after_edit(
                old(self).has_unsaved_changes,
            ),
    {
        if let (Some(cur), Some(orig)) = (&self.config, &self.original_config) {
            let config_changed = cur.color_scheme != orig.color_scheme || cur.sort_order
                != orig.sort_order;
            let a = chars_of(self.max_posts_input.as_str());
            let b = chars_of(self.original_max_posts_input.as_str());
            let max_changed = !seq_eq(a.as_slice(), b.as_slice());
            self.has_unsaved_changes = config_changed || max_changed;
        }
    }

    /// Move the selected settings row down, stopping at the last.
    pub fn select_next_field(&mut self)
        ensures
            *final(self) == (SettingsState {
                selected_field: spec_field_down(old(self).selected_field),
                ..*old(self)
            }),
    {
        self.selected_field = match self.selected_field {
            SettingsField::ColorScheme => SettingsField::SortOrder,
            SettingsField::SortOrder => SettingsField::MaxPosts,
            SettingsField::MaxPosts => SettingsField::MaxPosts,
        };
    }

    /// Move the selected settings row up, stopping at the first.
    pub fn select_previous_field(&mut self)
        ensures
            *final(self) == (SettingsState {
                selected_field: spec_field_up(old(self).selected_field),
                ..*old(self)
            }),
    {
        self.selected_field = match self.selected_field {
            SettingsField::ColorScheme => SettingsField::ColorScheme,
            SettingsField::SortOrder => SettingsField::ColorScheme,
            SettingsField::MaxPosts => SettingsField::SortOrder,
        };
    }

    /// Next colour scheme, when settings are loaded.
    pub fn cycle_color_scheme(&mut self, forward: bool)
        ensures
            match old(self).config {
                Some(c) => {
                    &&& final(self).config == Some(
                        UserConfig {
                            color_scheme: if forward {
                                spec_scheme_next(c.color_scheme)
                            } else {
                                spec_scheme_previous(c.color_scheme)
                            },
                            ..c
                        },
                    )
                    &&& final(self).has_unsaved_changes == final(self).flag_after_edit(
                        old(self).has_unsaved_changes,
                    )
                },
                None => final(self).config is None && final(self).has_unsaved_changes == old(
                    self,
                ).has_unsaved_changes,
            },
            final(self).max_posts_input == old(self).max_posts_input,
            final(self).same_but_flag(&*old(self)),
    {
        if let Some(c) = self.config {
            let next = if forward {
                match c.color_scheme {
                    ColorScheme::Default => ColorScheme::Dark,
                    ColorScheme::Dark => ColorScheme::Light,
                    ColorScheme::Light => ColorScheme::Solarized,
                    ColorScheme::Solarized => ColorScheme::Default,
                }
            } else {
                match c.color_scheme {
                    ColorScheme::Default => ColorScheme::Solarized,
                    ColorScheme::Dark => ColorScheme::Default,
                    ColorScheme::Light => ColorScheme::Dark,
                    ColorScheme::Solarized => ColorScheme::Light,
                }
            };
            self.config = Some(UserConfig { color_scheme: next, ..c });
            self.check_settings_changes();
        }
    }

    /// Next feed order, when settings are loaded.
    pub fn cycle_sort_order(&mut self, forward: bool)
        ensures
            match old(self).config {
                Some(c) => {
                    &&& final(self).config == Some(
                        UserConfig {
                            sort_order: if forward {
                                spec_sort_next(c.sort_order)
                            } else {
                                spec_sort_previous(c.sort_order)
                            },
                            ..c
                        },
                    )
                    &&& final(self).has_unsaved_changes == final(self).flag_after_edit(
                        old(self).has_unsaved_changes,
                    )
                },
                None => final(self).config is None && final(self).has_unsaved_changes == old(
                    self,
                ).has_unsaved_changes,
            },
            final(self).max_posts_input == old(self).max_posts_input,
            final(self).same_but_flag(&*old(self)),
    {
        if let Some(c) = self.config {
            let next = if forward {
                match c.sort_order {
                    SortOrder::Newest => SortOrder::Popular,
                    SortOrder::Popular => SortOrder::Controversial,
                    SortOrder::Controversial => SortOrder::Newest,
                }
            } else {
                match c.sort_order {
                    SortOrder::Newest => SortOrder::Controversial,
                    SortOrder::Popular => SortOrder::Newest,
                    SortOrder::Controversial => SortOrder::Popular,
                }
            };
            self.config = Some(UserConfig { sort_order: next, ..c });
            self.check_settings_changes();
        }
    }

    /// Append a digit to the max-posts input (at most three characters);
    /// other characters are ignored.
    pub fn add_digit_to_max_posts(&mut self, c: char)
        ensures
            final(self).max_posts_input@ == (if '0' <= c <= '9' && old(self).max_posts_input@.len()
                < 3 {
                old(self).max_posts_input@.push(c)
            } else {
                old(self).max_posts_input@
            }),
            ('0' <= c <= '9' && old(self).max_posts_input@.len() < 3)
                ==> final(self).has_unsaved_changes == final(self).flag_after_edit(
                old(self).has_unsaved_changes,
            ),
            !('0' <= c <= '9' && old(self).max_posts_input@.len() < 3)
                ==> final(self).has_unsaved_changes == old(self).has_unsaved_changes,
            final(self).config == old(self).config,
            final(self).same_but_flag(&*old(self)),
    {
        let cur = chars_of(self.max_posts_input.as_str());
        if '0' <= c && c <= '9' && cur.len() < 3 {
            let mut v = cur;
            v.push(c);
            self.max_posts_input = crate::text::string_from_chars(v.as_slice());
            self.check_settings_changes();
        }
    }

    /// Remove the last character of the max-posts input.
    pub fn remove_digit_from_max_posts(&mut self)
        ensures
            final(self).max_posts_input@ == (if old(self).max_posts_input@.len() > 0 {
                old(self).max_posts_input@.drop_last()
            } else {
                old(self).max_posts_input@
            }),
            old(self).max_posts_input@.len() > 0 ==> final(self).has_unsaved_changes
                == final(self).flag_after_edit(old(self).has_unsaved_changes),
            old(self).max_posts_input@.len() == 0 ==> final(self).has_unsaved_changes == old(
                self,
            ).has_unsaved_changes,
            final(self).config == old(self).config,
            final(self).same_but_flag(&*old(self)),
    {
        let cur = chars_of(self.max_posts_input.as_str());
        if cur.len() > 0 {
            let v = crate::text::slice_to_vec(cur.as_slice(), 0, cur.len() - 1);
            self.max_posts_input = crate::text::string_from_chars(v.as_slice());
            self.check_settings_changes();
        }
    }

    /// Step the max-posts input by one, keeping it within 1..=420; an input
    /// that is not a number is left alone.
    pub fn step_max_posts(&mut self, up: bool)
        ensures
            match spec_parse_i32(old(self).max_posts_input@) {
                Some(n) => {
                    let v = if up {
                        if n as int + 1 > 420 {
                            420
                        } else {
                            n as int + 1
                        }
                    } else {
                        if n as int - 1 < 1 {
                            1
                        } else {
                            n as int - 1
                        }
                    };
                    &&& final(self).max_posts_input@ == int_text(v)
                    &&& final(self).has_unsaved_changes == final(self).flag_after_edit(
                        old(self).has_unsaved_changes,
                    )
                },
                None => final(self).max_posts_input == old(self).max_posts_input
                    && final(self).has_unsaved_changes == old(self).has_unsaved_changes,
            },
            final(self).config == old(self).config,
            final(self).same_but_flag(&*old(self)),
    {
        let cur = chars_of(self.max_posts_input.as_str());
        if let Some(n) = parse_i32(cur.as_slice()) {
            let v: i32 = if up {
                if n >= 420 {
                    420
                } else {
                    n + 1
                }
            } else {
                if n <= 1 {
                    1
                } else {
                    n - 1
                }
            };
            self.max_posts_input = i32_to_string(v);
            self.check_settings_changes();
        }
    }

    /// Leave the settings tab for `new_tab`, or ask first when there are
    /// unsaved changes.
    pub fn request_tab_switch(&mut self, current: Tab, new_tab: Tab) -> (r: Option<Tab>)
        ensures
            (current == Tab::Settings && old(self).has_unsaved_changes) ==> {
                &&& r is None
                &&& *final(self) == (SettingsState {
                    show_save_confirmation: true,
                    pending_tab: Some(new_tab),
                    ..*old(self)
                })
            },
            !(current == Tab::Settings && old(self).has_unsaved_changes) ==> {
                &&& r == Some(new_tab)
                &&& *final(self) == *old(self)
            },
    {
        if current == Tab::Settings && self.has_unsaved_changes {
            self.show_save_confirmation = true;
            self.pending_tab = Some(new_tab);
            None
        } else {
            Some(new_tab)
        }
    }

    /// Answer "no" to the confirmation: drop the changes and go where the
    /// user was headed.
    pub fn confirm_discard_changes(&mut self) -> (r: DiscardOutcome)
        ensures
            *final(self) == (SettingsState {
                has_unsaved_changes: false,
                show_save_confirmation: false,
                pending_tab: None,
                ..*old(self)
            }),
            r == (match old(self).pending_tab {
                Some(t) => DiscardOutcome::SwitchTo(t),
                None => DiscardOutcome::Logout,
            }),
    {
        self.has_unsaved_changes = false;
        self.show_save_confirmation = false;
        let p = self.pending_tab;
        self.pending_tab = None;
        match p {
            Some(t) => DiscardOutcome::SwitchTo(t),
            None => DiscardOutcome::Logout,
        }
    }

    /// Dismiss the confirmation and stay.
    pub fn cancel_tab_switch(&mut self)
        ensures
            *final(self) == (SettingsState {
                show_save_confirmation: false,
                pending_tab: None,
                ..*old(self)
            }),
    {
        self.show_save_confirmation = false;
        self.pending_tab = None;
    }

    /// Quitting from the settings tab with unsaved changes asks first
    /// (with no pending tab); `true` when the application may stop.
    pub fn request_exit(&mut self, on_settings_tab: bool) -> (r: bool)
        ensures
            (on_settings_tab && old(self).has_unsaved_changes) ==> !r && *final(self) == (
            SettingsState { show_save_confirmation: true, pending_tab: None, ..*old(self) }),
            !(on_settings_tab && old(self).has_unsaved_changes) ==> r && *final(self) == *old(self),
    {
        if on_settings_tab && self.has_unsaved_changes {
            self.show_save_confirmation = true;
            self.pending_tab = None;
            false
        } else {
            true
        }
    }
}

fn join3(a: &str, b: &[char], c: &str) -> (r: String)
    ensures
        r@ == a@ + b@ + c@,
{
    let x = chars_of(a);
    let z = chars_of(c);
    let xy = concat(x.as_slice(), b);
    let xyz = concat(xy.as_slice(), z.as_slice());
    string_from_chars(xyz.as_slice())
}

impl MaxPostsError {
    /// The error shown for the max-posts input `input`.
    pub fn message(&self, input: &str) -> (r: String)
        ensures
            r@ == (match *self {
                MaxPostsError::NotPositive(n) => "Validation Error: Max posts must be positive (got "@
                    + int_text(n as int) + ")"@,
                MaxPostsError::Empty => "Validation Error: Max posts cannot be empty"@,
                MaxPostsError::NotANumber => "Validation Error: '"@ + input@ + "' is not a valid number"@,
            }),
    {
        match self {
            MaxPostsError::NotPositive(n) => {
                let t = i32_to_string(*n);
                let tc = chars_of(t.as_str());
                join3("Validation Error: Max posts must be positive (got ", tc.as_slice(), ")")
            },
            MaxPostsError::Empty => crate::text::owned("Validation Error: Max posts cannot be empty"),
            MaxPostsError::NotANumber => {
                let ic = chars_of(input);
                join3("Validation Error: '", ic.as_slice(), "' is not a valid number")
            },
        }
    }
}

/// The error shown when saving the settings failed with error text `e`.
pub fn save_failed_message(e: &str) -> (r: String)
    ensures
        r@ == "Network Error: Failed to save settings: "@ + e@ + " (Press 's' to retry)"@,
{
    let ec = chars_of(e);
    join3("Network Error: Failed to save settings: ", ec.as_slice(), " (Press 's' to retry)")
}

impl SettingsState {
    /// The settings to send when saving: None before they are loaded;
    /// otherwise the edited settings with the typed number of posts, or why
    /// that number cannot be saved.
    pub fn settings_to_save(&self) -> (r: Option<Result<UserConfig, MaxPostsError>>)
        ensures
            r == (match self.config {
                None => None,
                Some(c) => Some(
                    match spec_validate_max_posts(self.max_posts_input@) {
                        Ok(n) => Ok(UserConfig { max_posts_display: n, ..c }),
                        Err(e) => Err(e),
                    },
                ),
            }),
    {
        match self.config {
            None => None,
            Some(c) => Some(
                match validate_max_posts(self.max_posts_input.as_str()) {
                    Ok(n) => Ok(UserConfig { max_posts_display: n, ..c }),
                    Err(e) => Err(e),
                },
            ),
        }
    }

    /// Start loading or saving: no error shown (and, when loading, busy).
    pub fn begin_request(&mut self, loading: bool)
        ensures
            *final(self) == (SettingsState {
                error: None,
                loading: loading || old(self).loading,
                ..*old(self)
            }),
    {
        self.error = None;
        if loading {
            self.loading = true;
        }
    }

    /// Show `message` as the settings error (or notice), no longer busy.
    pub fn apply_error(&mut self, message: String)
        ensures
            *final(self) == (SettingsState { error: Some(message), loading: false, ..*old(self) }),
    {
        self.error = Some(message);
        self.loading = false;
    }

    /// The server saved the settings as `config`: they become the saved
    /// settings, with a notice.
    pub fn apply_saved(&mut self, config: UserConfig)
        ensures
            final(self).config == Some(config),
            final(self).original_config == Some(config),
            final(self).max_posts_input@ == int_text(config.max_posts_display as int),
            final(self).original_max_posts_input@ == int_text(config.max_posts_display as int),
            final(self).error matches Some(m) && m@ == "✓ Settings saved successfully!"@,
            *final(self) == (SettingsState {
                config: Some(config),
                original_config: Some(config),
                max_posts_input: final(self).max_posts_input,
                original_max_posts_input: final(self).original_max_posts_input,
                error: final(self).error,
                loading: false,
                has_unsaved_changes: false,
                ..*old(self)
            }),
    {
        self.apply_loaded(config);
        self.error = Some(crate::text::owned("✓ Settings saved successfully!"));
    }
}

/// Where a tab stands in the tab bar, from the left.
pub open spec fn tab_position(t: Tab) -> int {
    match t {
        Tab::Posts => 0,
        Tab::Chat => 1,
        Tab::DMs => 2,
        Tab::Profile => 3,
        Tab::Settings => 4,
    }
}

/// Tab moves one place right in the tab bar and BackTab one place left,
/// both wrapping around at the ends.
pub proof fn lemma_tab_order(t: Tab)
    ensures
        tab_position(spec_tab_next(t)) == (tab_position(t) + 1) % 5,
        tab_position(spec_tab_previous(t)) == (tab_position(t) + 4) % 5,
{
}

/// Where a colour scheme stands in the list of schemes.
pub open spec fn scheme_position(c: ColorScheme) -> int {
    match c {
        ColorScheme::Default => 0,
        ColorScheme::Dark => 1,
        ColorScheme::Light => 2,
        ColorScheme::Solarized => 3,
    }
}

/// Where a feed order stands in the list of orders.
pub open spec fn sort_position(s: SortOrder) -> int {
    match s {
        SortOrder::Newest => 0,
        SortOrder::Popular => 1,
        SortOrder::Controversial => 2,
    }
}

/// Where a settings field stands on the settings tab, from the top.
pub open spec fn field_position(f: SettingsField) -> int {
    match f {
        SettingsField::ColorScheme => 0,
        SettingsField::SortOrder => 1,
        SettingsField::MaxPosts => 2,
    }
}

/// Cycling a setting forward takes the next entry of its list (Default,
/// Dark, Light, Solarized; Newest, Popular, Controversial) and backward
/// the previous one, wrapping around; moving down the settings fields goes
/// one field down and up one field up, stopping at the last and the first.
pub proof fn lemma_settings_order(c: ColorScheme, s: SortOrder, f: SettingsField)
    ensures
        scheme_position(spec_scheme_next(c)) == (scheme_position(c) + 1) % 4,
        scheme_position(spec_scheme_previous(c)) == (scheme_position(c) + 3) % 4,
        sort_position(spec_sort_next(s)) == (sort_position(s) + 1) % 3,
        sort_position(spec_sort_previous(s)) == (sort_position(s) + 2) % 3,
        field_position(spec_field_down(f)) == (if field_position(f) < 2 {
            field_position(f) + 1
        } else {
            2
        }),
        field_position(spec_field_up(f)) == (if field_position(f) > 0 {
            field_position(f) - 1
        } else {
            0
        }),
{
}

} // verus!
