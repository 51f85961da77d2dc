//! Which handler a key press goes to. Overlays are asked in a fixed order
//! of priority, then the global keys, then the screen and tab on show.
use vstd::prelude::*;
use crate::keys::{down_key, is_down_key, is_up_key, up_key, KeyCode, KeyEvent};
use crate::state::{FilterTab, InputMode, Screen, SettingsField, Tab};

verus! {

/// What the key router needs to know of the interface.
#[derive(Debug, Clone, Copy, PartialEq, Eq, Structural)]
pub struct KeyContext {
    pub show_help: bool,
    pub profile_view_open: bool,
    pub show_save_confirmation: bool,
    pub show_community_modal: bool,
    pub notifications_open: bool,
    pub filter_modal_open: bool,
    pub filter_add_input_open: bool,
    pub composer_open: bool,
    pub new_conversation_modal_open: bool,
    pub dm_error_shown: bool,
    pub friends_modal_open: bool,
    pub user_search_open: bool,
    pub hashtags_modal_open: bool,
    pub viewing_post_detail: bool,
    pub detail_delete_confirmation: bool,
    pub detail_full_post_modal: bool,
    pub input_mode: InputMode,
    pub screen: Screen,
    pub tab: Tab,
    pub settings_unsaved: bool,
    /// Launched outside a repository, the board of a community picked from
    /// the home list is open.
    pub home_board_open: bool,
}

/// Where a key goes.
#[derive(Debug, Clone, Copy, PartialEq, Eq, Structural)]
pub enum KeyRoute {
    /// Not a press: nothing happens.
    Ignore,
    /// Stop the application.
    Quit,
    ToggleHelp,
    /// The help overlay swallows the key.
    HelpSwallow,
    ProfileView,
    CancelTabSwitch,
    SaveConfirmation,
    CloseCommunityModal,
    /// The community modal swallows the key.
    CommunityModalSwallow,
    NotificationsPanel,
    CloseFilterAddInput,
    CancelFilterModal,
    FilterModal,
    CloseComposer,
    ComposerInput,
    CloseNewConversation,
    NewConversationModal,
    ClearDmError,
    CloseFriends,
    FriendsModal,
    CloseUserSearch,
    UserSearch,
    CloseHashtags,
    HashtagsModal,
    CancelDelete,
    DeleteConfirmation,
    CloseFullPostModal,
    FullPostModal,
    ClosePostDetail,
    /// Close the community's board and return to the home list.
    CloseCommunity,
    /// Ask whether to save the settings before leaving.
    ConfirmExit,
    AuthKeys,
    MainKeys,
}

/// The overlays, in order of priority: help, another user's profile, the
/// save confirmation, the community modal, notifications, the filter
/// modal, the composer, the new-conversation modal, a DM error (Esc only),
/// the social modal, user search, hashtags.
pub open spec fn overlay_route(k: KeyCode, c: KeyContext) -> Option<KeyRoute> {
    if c.show_help {
        Some(
            if k == KeyCode::Esc || k == KeyCode::Char('?') {
                KeyRoute::ToggleHelp
            } else {
                KeyRoute::HelpSwallow
            },
        )
    } else if c.profile_view_open {
        Some(KeyRoute::ProfileView)
    } else if c.show_save_confirmation {
        Some(
            if k == KeyCode::Esc {
                KeyRoute::CancelTabSwitch
            } else {
                KeyRoute::SaveConfirmation
            },
        )
    } else if c.show_community_modal {
        Some(
            if k == KeyCode::Esc || k == KeyCode::Char('i') || k == KeyCode::Char('I') {
                KeyRoute::CloseCommunityModal
            } else {
                KeyRoute::CommunityModalSwallow
            },
        )
    } else if c.notifications_open {
        Some(KeyRoute::NotificationsPanel)
    } else if c.filter_modal_open {
        Some(
            if k == KeyCode::Esc {
                if c.filter_add_input_open {
                    KeyRoute::CloseFilterAddInput
                } else {
                    KeyRoute::CancelFilterModal
                }
            } else {
                KeyRoute::FilterModal
            },
        )
    } else if c.composer_open && k != KeyCode::Enter {
        Some(
            if k == KeyCode::Esc {
                KeyRoute::CloseComposer
            } else {
                KeyRoute::ComposerInput
            },
        )
    } else if c.composer_open {
        // Enter passes the overlays: the caller submits the composer.
        None
    } else if c.new_conversation_modal_open {
        Some(
            if k == KeyCode::Esc {
                KeyRoute::CloseNewConversation
            } else {
                KeyRoute::NewConversationModal
            },
        )
    } else if c.tab == Tab::DMs && c.dm_error_shown && k == KeyCode::Esc {
        Some(KeyRoute::ClearDmError)
    } else if c.friends_modal_open {
        Some(
            if k == KeyCode::Esc {
                KeyRoute::CloseFriends
            } else {
                KeyRoute::FriendsModal
            },
        )
    } else if c.user_search_open {
        Some(
            if k == KeyCode::Esc {
                KeyRoute::CloseUserSearch
            } else {
                KeyRoute::UserSearch
            },
        )
    } else if c.hashtags_modal_open {
        Some(
            if k == KeyCode::Esc {
                KeyRoute::CloseHashtags
            } else {
                KeyRoute::HashtagsModal
            },
        )
    } else {
        None
    }
}

/// The thread view's own overlays and Esc.
pub open spec fn detail_route(k: KeyCode, c: KeyContext) -> Option<KeyRoute> {
    if !c.viewing_post_detail {
        None
    } else if c.detail_delete_confirmation {
        Some(
            if k == KeyCode::Esc {
                KeyRoute::CancelDelete
            } else {
                KeyRoute::DeleteConfirmation
            },
        )
    } else if c.detail_full_post_modal {
        Some(
            if k == KeyCode::Esc {
                KeyRoute::CloseFullPostModal
            } else {
                KeyRoute::FullPostModal
            },
        )
    } else if k == KeyCode::Esc {
        Some(KeyRoute::ClosePostDetail)
    } else {
        None
    }
}

/// The global keys, in navigation mode: `?` toggles help (not while the
/// composer is open); Esc on the posts tab of a board opened from the home
/// list goes back to that list; `q`, `Q` and Esc leave, asking first when
/// the settings tab has unsaved changes.
pub open spec fn global_route(k: KeyCode, c: KeyContext) -> Option<KeyRoute> {
    if k == KeyCode::Char('?') && !c.composer_open && c.input_mode == InputMode::Navigation {
        Some(KeyRoute::ToggleHelp)
    } else if k == KeyCode::Esc && c.input_mode == InputMode::Navigation && c.screen == Screen::Main
        && c.tab == Tab::Posts && c.home_board_open {
        Some(KeyRoute::CloseCommunity)
    } else if (k == KeyCode::Char('q') || k == KeyCode::Char('Q') || k == KeyCode::Esc)
        && c.input_mode == InputMode::Navigation {
        if c.screen == Screen::Main && c.tab == Tab::Settings && c.settings_unsaved {
            Some(KeyRoute::ConfirmExit)
        } else {
            Some(KeyRoute::Quit)
        }
    } else {
        None
    }
}

/// Where key `e` goes in context `c`: nothing for a release; Ctrl+C
/// always quits; then the overlays, the thread view, the global keys, and
/// the screen.
pub open spec fn spec_route(e: KeyEvent, c: KeyContext) -> KeyRoute {
    if !e.is_press {
        KeyRoute::Ignore
    } else if e.code == KeyCode::Char('c') && e.modifiers.control {
        KeyRoute::Quit
    } else if let Some(r) = overlay_route(e.code, c) {
        r
    } else if let Some(r) = detail_route(e.code, c) {
        r
    } else if let Some(r) = global_route(e.code, c) {
        r
    } else if c.screen == Screen::Auth {
        KeyRoute::AuthKeys
    } else {
        KeyRoute::MainKeys
    }
}

fn key_is(k: KeyCode, c: char) -> (r: bool)
    ensures
        r == (k == KeyCode::Char(c)),
{
    match k {
        KeyCode::Char(x) => x == c,
        _ => false,
    }
}

fn is_esc(k: KeyCode) -> (r: bool)
    ensures
        r == (k == KeyCode::Esc),
{
    match k {
        KeyCode::Esc => true,
        _ => false,
    }
}

fn is_enter(k: KeyCode) -> (r: bool)
    ensures
        r == (k == KeyCode::Enter),
{
    match k {
        KeyCode::Enter => true,
        _ => false,
    }
}

fn overlay_route_exec(k: KeyCode, c: &KeyContext) -> (r: Option<KeyRoute>)
    ensures
        r == overlay_route(k, *c),
{
    if c.show_help {
        Some(
            if is_esc(k) || key_is(k, '?') {
                KeyRoute::ToggleHelp
            } else {
                KeyRoute::HelpSwallow
            },
        )
    } else if c.profile_view_open {
        Some(KeyRoute::ProfileView)
    } else if c.show_save_confirmation {
        Some(
            if is_esc(k) {
                KeyRoute::CancelTabSwitch
            } else {
                KeyRoute::SaveConfirmation
            },
        )
    } else if c.show_community_modal {
        Some(
            if is_esc(k) || key_is(k, 'i') || key_is(k, 'I') {
                KeyRoute::CloseCommunityModal
            } else {
                KeyRoute::CommunityModalSwallow
            },
        )
    } else if c.notifications_open {
        Some(KeyRoute::NotificationsPanel)
    } else if c.filter_modal_open {
        Some(
            if is_esc(k) {
                if c.filter_add_input_open {
                    KeyRoute::CloseFilterAddInput
                } else {
                    KeyRoute::CancelFilterModal
                }
            } else {
                KeyRoute::FilterModal
            },
        )
    } else if c.composer_open && !is_enter(k) {
        Some(
            if is_esc(k) {
                KeyRoute::CloseComposer
            } else {
                KeyRoute::ComposerInput
            },
        )
    } else if c.composer_open {
        None
    } else if c.new_conversation_modal_open {
        Some(
            if is_esc(k) {
                KeyRoute::CloseNewConversation
            } else {
                KeyRoute::NewConversationModal
            },
        )
    } else if c.tab == Tab::DMs && c.dm_error_shown && is_esc(k) {
        Some(KeyRoute::ClearDmError)
    } else if c.friends_modal_open {
        Some(
            if is_esc(k) {
                KeyRoute::CloseFriends
            } else {
                KeyRoute::FriendsModal
            },
        )
    } else if c.user_search_open {
        Some(
            if is_esc(k) {
                KeyRoute::CloseUserSearch
            } else {
                KeyRoute::UserSearch
            },
        )
    } else if c.hashtags_modal_open {
        Some(
            if is_esc(k) {
                KeyRoute::CloseHashtags
            } else {
                KeyRoute::HashtagsModal
            },
        )
    } else {
        None
    }
}

/// Where key `key` goes in context `ctx` (see `spec_route`).
pub fn handle_key_event(key: KeyEvent, ctx: &KeyContext) -> (r: KeyRoute)
    ensures
        r == spec_route(key, *ctx),
{
    if !key.is_press {
        return KeyRoute::Ignore;
    }
    if key_is(key.code, 'c') && key.modifiers.control {
        return KeyRoute::Quit;
    }
    if let Some(r) = overlay_route_exec(key.code, ctx) {
        return r;
    }
    let k = key.code;
    if ctx.viewing_post_detail {
        if ctx.detail_delete_confirmation {
            return if is_esc(k) {
                KeyRoute::CancelDelete
            } else {
                KeyRoute::DeleteConfirmation
            };
        }
        if ctx.detail_full_post_modal {
            return if is_esc(k) {
                KeyRoute::CloseFullPostModal
            } else {
                KeyRoute::FullPostModal
            };
        }
        if is_esc(k) {
            return KeyRoute::ClosePostDetail;
        }
    }
    let navigating = match ctx.input_mode {
        InputMode::Navigation => true,
        InputMode::Typing => false,
    };
    if key_is(k, '?') && !ctx.composer_open && navigating {
        return KeyRoute::ToggleHelp;
    }
    if is_esc(k) && navigating && ctx.home_board_open {
        let on_posts = match ctx.screen {
            Screen::Main => match ctx.tab {
                Tab::Posts => true,
                _ => false,
            },
            Screen::Auth => false,
        };
        if on_posts {
            return KeyRoute::CloseCommunity;
        }
    }
    if (key_is(k, 'q') || key_is(k, 'Q') || is_esc(k)) && navigating {
        let on_settings = match ctx.screen {
            Screen::Main => match ctx.tab {
                Tab::Settings => true,
                _ => false,
            },
            Screen::Auth => false,
        };
        if on_settings && ctx.settings_unsaved {
            return KeyRoute::ConfirmExit;
        }
        return KeyRoute::Quit;
    }
    match ctx.screen {
        Screen::Auth => KeyRoute::AuthKeys,
        Screen::Main => KeyRoute::MainKeys,
    }
}

/// Some overlay is open.
pub open spec fn any_overlay(c: KeyContext) -> bool {
    c.show_help || c.profile_view_open || c.show_save_confirmation || c.show_community_modal
        || c.notifications_open || c.filter_modal_open || c.composer_open
        || c.new_conversation_modal_open || c.friends_modal_open || c.user_search_open
        || c.hashtags_modal_open || c.viewing_post_detail
}

/// Ctrl+C quits from anywhere.
pub proof fn lemma_ctrl_c_always_quits(e: KeyEvent, c: KeyContext)
    requires
        e.is_press,
        e.code == KeyCode::Char('c'),
        e.modifiers.control,
    ensures
        spec_route(e, c) == KeyRoute::Quit,
{
}

/// While an overlay or the thread view is open, Esc closes or cancels it
/// and never quits.
pub proof fn lemma_escape_never_quits_over_overlay(e: KeyEvent, c: KeyContext)
    requires
        e.is_press,
        e.code == KeyCode::Esc,
        any_overlay(c),
    ensures
        spec_route(e, c) != KeyRoute::Quit,
        spec_route(e, c) != KeyRoute::ConfirmExit,
{
}

/// With the help overlay open, Esc and `?` close it, and nothing but
/// Ctrl+C gets past it.
pub proof fn lemma_help_first(e: KeyEvent, c: KeyContext)
    requires
        e.is_press,
        c.show_help,
        !(e.code == KeyCode::Char('c') && e.modifiers.control),
    ensures
        spec_route(e, c) == (if e.code == KeyCode::Esc || e.code == KeyCode::Char('?') {
            KeyRoute::ToggleHelp
        } else {
            KeyRoute::HelpSwallow
        }),
{
}

/// Leaving the settings tab with unsaved changes asks first instead of quitting.
pub proof fn lemma_unsaved_settings_are_confirmed(e: KeyEvent, c: KeyContext)
    requires
        e.is_press,
        e.code == KeyCode::Char('q') || e.code == KeyCode::Esc,
        !any_overlay(c),
        c.input_mode == InputMode::Navigation,
        c.screen == Screen::Main,
        c.tab == Tab::Settings,
        c.settings_unsaved,
    ensures
        spec_route(e, c) == KeyRoute::ConfirmExit,
{
}

/// What a key does on the main screen outside the overlays.
#[derive(Debug, Clone, Copy, PartialEq, Eq, Structural)]
pub enum MainCommand {
    NextTab,
    PreviousTab,
    /// The key goes to the handler of the tab on show.
    Tab(Tab),
}

pub open spec fn spec_main_command(k: KeyCode, tab: Tab) -> MainCommand {
    if k == KeyCode::Tab {
        MainCommand::NextTab
    } else if k == KeyCode::BackTab {
        MainCommand::PreviousTab
    } else {
        MainCommand::Tab(tab)
    }
}

/// Tab and BackTab switch tabs; other keys go to the tab on show.
pub fn handle_main_keys(k: KeyCode, tab: Tab) -> (r: MainCommand)
    ensures
        r == spec_main_command(k, tab),
{
    match k {
        KeyCode::Tab => MainCommand::NextTab,
        KeyCode::BackTab => MainCommand::PreviousTab,
        _ => MainCommand::Tab(tab),
    }
}

/// What a key does on the settings tab.
#[derive(Debug, Clone, Copy, PartialEq, Eq, Structural)]
pub enum SettingsCommand {
    Nothing,
    /// Save the settings (answering yes, or `s`).
    Save,
    /// Discard the changes (answering no).
    Discard,
    NextField,
    PreviousField,
    CycleColorScheme { forward: bool },
    CycleSortOrder { forward: bool },
    StepMaxPosts { up: bool },
    RemoveDigit,
    AddDigit(char),
}

pub open spec fn spec_settings_command(k: KeyCode, field: SettingsField, confirming: bool) -> SettingsCommand {
    if confirming {
        if k == KeyCode::Char('y') || k == KeyCode::Char('Y') {
            SettingsCommand::Save
        } else if k == KeyCode::Char('n') || k == KeyCode::Char('N') {
            SettingsCommand::Discard
        } else {
            SettingsCommand::Nothing
        }
    } else if is_down_key(k) {
        SettingsCommand::NextField
    } else if is_up_key(k) {
        SettingsCommand::PreviousField
    } else if k == KeyCode::Char('h') || k == KeyCode::Char('H') || k == KeyCode::Left {
        match field {
            SettingsField::ColorScheme => SettingsCommand::CycleColorScheme { forward: false },
            SettingsField::SortOrder => SettingsCommand::CycleSortOrder { forward: false },
            SettingsField::MaxPosts => SettingsCommand::StepMaxPosts { up: false },
        }
    } else if k == KeyCode::Char('l') || k == KeyCode::Char('L') || k == KeyCode::Right || k
        == KeyCode::Enter {
        match field {
            SettingsField::ColorScheme => SettingsCommand::CycleColorScheme { forward: true },
            SettingsField::SortOrder => SettingsCommand::CycleSortOrder { forward: true },
            SettingsField::MaxPosts => SettingsCommand::StepMaxPosts { up: true },
        }
    } else if k == KeyCode::Backspace && field == SettingsField::MaxPosts {
        SettingsCommand::RemoveDigit
    } else if field == SettingsField::MaxPosts && k is Char {
        SettingsCommand::AddDigit(k->Char_0)
    } else if k == KeyCode::Char('s') {
        SettingsCommand::Save
    } else {
        SettingsCommand::Nothing
    }
}

/// What key `k` does on the settings tab with field `field` selected,
/// `confirming` telling whether the save confirmation is shown.
pub fn handle_settings_keys(k: KeyCode, field: SettingsField, confirming: bool) -> (r: SettingsCommand)
    ensures
        r == spec_settings_command(k, field, confirming),
{
    if confirming {
        return if key_is(k, 'y') || key_is(k, 'Y') {
            SettingsCommand::Save
        } else if key_is(k, 'n') || key_is(k, 'N') {
            SettingsCommand::Discard
        } else {
            SettingsCommand::Nothing
        };
    }
    if down_key(k) {
        return SettingsCommand::NextField;
    }
    if up_key(k) {
        return SettingsCommand::PreviousField;
    }
    let max_posts = match field {
        SettingsField::MaxPosts => true,
        _ => false,
    };
    if key_is(k, 'h') || key_is(k, 'H') || k == KeyCode::Left {
        return match field {
            SettingsField::ColorScheme => SettingsCommand::CycleColorScheme { forward: false },
            SettingsField::SortOrder => SettingsCommand::CycleSortOrder { forward: false },
            SettingsField::MaxPosts => SettingsCommand::StepMaxPosts { up: false },
        };
    }
    if key_is(k, 'l') || key_is(k, 'L') || k == KeyCode::Right || is_enter(k) {
        return match field {
            SettingsField::ColorScheme => SettingsCommand::CycleColorScheme { forward: true },
            SettingsField::SortOrder => SettingsCommand::CycleSortOrder { forward: true },
            SettingsField::MaxPosts => SettingsCommand::StepMaxPosts { up: true },
        };
    }
    match k {
        KeyCode::Backspace => if max_posts {
            SettingsCommand::RemoveDigit
        } else {
            SettingsCommand::Nothing
        },
        KeyCode::Char(c) => if max_posts {
            SettingsCommand::AddDigit(c)
        } else if c == 's' {
            SettingsCommand::Save
        } else {
            SettingsCommand::Nothing
        },
        _ => SettingsCommand::Nothing,
    }
}

/// What a key does in the filter modal.
#[derive(Debug, Clone, Copy, PartialEq, Eq, Structural)]
pub enum FilterCommand {
    Nothing,
    /// Add `c` to the hashtag being typed.
    TypeHashtag(char),
    EraseHashtagChar,
    CloseAddInput,
    /// Follow the typed hashtag.
    SubmitHashtag,
    Cancel,
    NextTab,
    PreviousTab,
    Down,
    Up,
    Toggle,
    /// Unfollow the highlighted hashtag.
    UnfollowHashtag,
    OpenAddInput,
}

pub open spec fn spec_filter_command(k: KeyCode, tab: FilterTab, add_input: bool, at_add_row: bool) -> FilterCommand {
    if add_input {
        match k {
            KeyCode::Char(c) => FilterCommand::TypeHashtag(c),
            KeyCode::Backspace => FilterCommand::EraseHashtagChar,
            KeyCode::Esc => FilterCommand::CloseAddInput,
            KeyCode::Enter => FilterCommand::SubmitHashtag,
            _ => FilterCommand::Nothing,
        }
    } else if k == KeyCode::Esc {
        FilterCommand::Cancel
    } else if k == KeyCode::Tab || k == KeyCode::Right || k == KeyCode::Char('l') || k
        == KeyCode::Char('L') {
        FilterCommand::NextTab
    } else if k == KeyCode::Left || k == KeyCode::Char('h') || k == KeyCode::Char('H') {
        FilterCommand::PreviousTab
    } else if is_down_key(k) {
        FilterCommand::Down
    } else if is_up_key(k) {
        FilterCommand::Up
    } else if k == KeyCode::Char(' ') {
        FilterCommand::Toggle
    } else if (k == KeyCode::Char('x') || k == KeyCode::Char('X')) && tab == FilterTab::Hashtags {
        FilterCommand::UnfollowHashtag
    } else if k == KeyCode::Enter && tab == FilterTab::Hashtags && at_add_row {
        FilterCommand::OpenAddInput
    } else {
        FilterCommand::Nothing
    }
}

/// What key `k` does in the filter modal on tab `tab`; `add_input` tells
/// whether the add-hashtag input is open and `at_add_row` whether the
/// highlight is on the row past the hashtags.
pub fn handle_filter_modal_keys(k: KeyCode, tab: FilterTab, add_input: bool, at_add_row: bool) -> (r: FilterCommand)
    ensures
        r == spec_filter_command(k, tab, add_input, at_add_row),
{
    if add_input {
        return match k {
            KeyCode::Char(c) => FilterCommand::TypeHashtag(c),
            KeyCode::Backspace => FilterCommand::EraseHashtagChar,
            KeyCode::Esc => FilterCommand::CloseAddInput,
            KeyCode::Enter => FilterCommand::SubmitHashtag,
            _ => FilterCommand::Nothing,
        };
    }
    let hashtags = match tab {
        FilterTab::Hashtags => true,
        _ => false,
    };
    if is_esc(k) {
        FilterCommand::Cancel
    } else if k == KeyCode::Tab || k == KeyCode::Right || key_is(k, 'l') || key_is(k, 'L') {
        FilterCommand::NextTab
    } else if k == KeyCode::Left || key_is(k, 'h') || key_is(k, 'H') {
        FilterCommand::PreviousTab
    } else if down_key(k) {
        FilterCommand::Down
    } else if up_key(k) {
        FilterCommand::Up
    } else if key_is(k, ' ') {
        FilterCommand::Toggle
    } else if (key_is(k, 'x') || key_is(k, 'X')) && hashtags {
        FilterCommand::UnfollowHashtag
    } else if is_enter(k) && hashtags && at_add_row {
        FilterCommand::OpenAddInput
    } else {
        FilterCommand::Nothing
    }
}

/// The highlight after the auth screen's arrows and `j`/`k`: at most the
/// first three test users can be chosen.
pub open spec fn spec_auth_step(k: KeyCode, selected: usize, n_users: usize) -> usize {
    if is_up_key(k) {
        (if selected > 0 {
            selected - 1
        } else {
            0
        }) as usize
    } else if is_down_key(k) {
        let max_users = if n_users < 3 {
            n_users as int
        } else {
            3
        };
        let last = if max_users > 0 {
            max_users - 1
        } else {
            0
        };
        (if selected < last {
            selected + 1
        } else {
            selected as int
        }) as usize
    } else {
        selected
    }
}

/// Handle a key on the auth screen, given the highlighted test user and
/// the number of test users.
pub fn handle_auth_keys(k: KeyCode, selected: usize, n_users: usize) -> (r: usize)
    ensures
        r == spec_auth_step(k, selected, n_users),
{
    if up_key(k) {
        if selected > 0 {
            selected - 1
        } else {
            selected
        }
    } else if down_key(k) {
        let max_users = if n_users < 3 {
            n_users
        } else {
            3
        };
        if selected < max_users.saturating_sub(1) {
            selected + 1
        } else {
            selected
        }
    } else {
        selected
    }
}

/// What a key does on the posts tab outside the thread view.
#[derive(Debug, Clone, Copy, PartialEq, Eq, Structural)]
pub enum PostsCommand {
    Nothing,
    /// Type into the new-post box.
    TypeChar(char),
    EraseChar,
    NextHomeCommunity,
    PreviousHomeCommunity,
    NextPost,
    PreviousPost,
    OpenComposer,
    OpenFilter,
    OpenUserSearch,
    ShowCommunityModal,
}

pub open spec fn spec_posts_command(k: KeyCode, new_post_modal: bool, home_list: bool, has_community: bool) -> PostsCommand {
    if new_post_modal {
        match k {
            KeyCode::Char(c) => PostsCommand::TypeChar(c),
            KeyCode::Backspace => PostsCommand::EraseChar,
            _ => PostsCommand::Nothing,
        }
    } else if home_list {
        if is_down_key(k) {
            PostsCommand::NextHomeCommunity
        } else if is_up_key(k) {
            PostsCommand::PreviousHomeCommunity
        } else {
            PostsCommand::Nothing
        }
    } else if is_down_key(k) {
        PostsCommand::NextPost
    } else if is_up_key(k) {
        PostsCommand::PreviousPost
    } else if k == KeyCode::Char('n') || k == KeyCode::Char('N') {
        PostsCommand::OpenComposer
    } else if k == KeyCode::Char('f') || k == KeyCode::Char('F') {
        PostsCommand::OpenFilter
    } else if k == KeyCode::Char('s') || k == KeyCode::Char('S') {
        PostsCommand::OpenUserSearch
    } else if (k == KeyCode::Char('i') || k == KeyCode::Char('I')) && has_community {
        PostsCommand::ShowCommunityModal
    } else {
        PostsCommand::Nothing
    }
}

/// What key `k` does on the posts tab (the thread view has its own keys).
pub fn handle_posts_keys(k: KeyCode, new_post_modal: bool, home_list: bool, has_community: bool) -> (r: PostsCommand)
    ensures
        r == spec_posts_command(k, new_post_modal, home_list, has_community),
{
    if new_post_modal {
        return match k {
            KeyCode::Char(c) => PostsCommand::TypeChar(c),
            KeyCode::Backspace => PostsCommand::EraseChar,
            _ => PostsCommand::Nothing,
        };
    }
    if home_list {
        return if down_key(k) {
            PostsCommand::NextHomeCommunity
        } else if up_key(k) {
            PostsCommand::PreviousHomeCommunity
        } else {
            PostsCommand::Nothing
        };
    }
    if down_key(k) {
        PostsCommand::NextPost
    } else if up_key(k) {
        PostsCommand::PreviousPost
    } else if key_is(k, 'n') || key_is(k, 'N') {
        PostsCommand::OpenComposer
    } else if key_is(k, 'f') || key_is(k, 'F') {
        PostsCommand::OpenFilter
    } else if key_is(k, 's') || key_is(k, 'S') {
        PostsCommand::OpenUserSearch
    } else if (key_is(k, 'i') || key_is(k, 'I')) && has_community {
        PostsCommand::ShowCommunityModal
    } else {
        PostsCommand::Nothing
    }
}

/// What a key does in the thread view.
#[derive(Debug, Clone, Copy, PartialEq, Eq, Structural)]
pub enum DetailCommand {
    Nothing,
    OpenFullPostModal,
    ClosePostDetail,
    NextReply,
    PreviousReply,
    /// Reply to the main post.
    ReplyToMain,
    /// Reply to the selected direct reply.
    ReplyToSelected,
    ShowDeleteConfirmation,
    // Full-post modal.
    CloseFullPostModal,
    ModalNext,
    ModalPrevious,
    ModalToggle,
    /// Reply to the modal's root post.
    ReplyToModalPost,
    // Inline reply box.
    ReplyTypeChar(char),
    ReplyEraseChar,
    CloseReplyComposer,
    // Delete confirmation.
    ConfirmDelete,
    CancelDelete,
}

pub open spec fn spec_detail_command(
    e: KeyEvent,
    full_post_modal: bool,
    reply_composer: bool,
    delete_confirmation: bool,
) -> DetailCommand {
    let k = e.code;
    if full_post_modal {
        if k == KeyCode::Esc {
            DetailCommand::CloseFullPostModal
        } else if is_down_key(k) {
            DetailCommand::ModalNext
        } else if is_up_key(k) {
            DetailCommand::ModalPrevious
        } else if k == KeyCode::Char(' ') || k == KeyCode::Enter {
            DetailCommand::ModalToggle
        } else if k == KeyCode::Char('r') || k == KeyCode::Char('R') {
            DetailCommand::ReplyToModalPost
        } else if k == KeyCode::Char('x') || k == KeyCode::Char('X') {
            DetailCommand::ShowDeleteConfirmation
        } else {
            DetailCommand::Nothing
        }
    } else if reply_composer {
        match k {
            KeyCode::Char(c) => DetailCommand::ReplyTypeChar(c),
            KeyCode::Backspace => DetailCommand::ReplyEraseChar,
            KeyCode::Esc => DetailCommand::CloseReplyComposer,
            _ => DetailCommand::Nothing,
        }
    } else if delete_confirmation {
        if k == KeyCode::Char('y') || k == KeyCode::Char('Y') {
            DetailCommand::ConfirmDelete
        } else if k == KeyCode::Char('n') || k == KeyCode::Char('N') || k == KeyCode::Esc {
            DetailCommand::CancelDelete
        } else {
            DetailCommand::Nothing
        }
    } else if k == KeyCode::Enter {
        DetailCommand::OpenFullPostModal
    } else if k == KeyCode::Esc {
        DetailCommand::ClosePostDetail
    } else if is_down_key(k) {
        DetailCommand::NextReply
    } else if is_up_key(k) {
        DetailCommand::PreviousReply
    } else if k == KeyCode::Char('r') || k == KeyCode::Char('R') {
        DetailCommand::ReplyToMain
    } else if k == KeyCode::Char('c') || k == KeyCode::Char('C') {
        DetailCommand::ReplyToSelected
    } else if k == KeyCode::Char('x') || k == KeyCode::Char('X') {
        DetailCommand::ShowDeleteConfirmation
    } else {
        DetailCommand::Nothing
    }
}

/// What key `e` does in the thread view, given which of its overlays is open.
pub fn handle_post_detail_keys(
    e: KeyEvent,
    full_post_modal: bool,
    reply_composer: bool,
    delete_confirmation: bool,
) -> (r: DetailCommand)
    ensures
        r == spec_detail_command(e, full_post_modal, reply_composer, delete_confirmation),
{
    let k = e.code;
    if full_post_modal {
        return if is_esc(k) {
            DetailCommand::CloseFullPostModal
        } else if down_key(k) {
            DetailCommand::ModalNext
        } else if up_key(k) {
            DetailCommand::ModalPrevious
        } else if key_is(k, ' ') || is_enter(k) {
            DetailCommand::ModalToggle
        } else if key_is(k, 'r') || key_is(k, 'R') {
            DetailCommand::ReplyToModalPost
        } else if key_is(k, 'x') || key_is(k, 'X') {
            DetailCommand::ShowDeleteConfirmation
        } else {
            DetailCommand::Nothing
        };
    }
    if reply_composer {
        return match k {
            KeyCode::Char(c) => DetailCommand::ReplyTypeChar(c),
            KeyCode::Backspace => DetailCommand::ReplyEraseChar,
            KeyCode::Esc => DetailCommand::CloseReplyComposer,
            _ => DetailCommand::Nothing,
        };
    }
    if delete_confirmation {
        return if key_is(k, 'y') || key_is(k, 'Y') {
            DetailCommand::ConfirmDelete
        } else if key_is(k, 'n') || key_is(k, 'N') || is_esc(k) {
            DetailCommand::CancelDelete
        } else {
            DetailCommand::Nothing
        };
    }
    if is_enter(k) {
        DetailCommand::OpenFullPostModal
    } else if is_esc(k) {
        DetailCommand::ClosePostDetail
    } else if down_key(k) {
        DetailCommand::NextReply
    } else if up_key(k) {
        DetailCommand::PreviousReply
    } else if key_is(k, 'r') || key_is(k, 'R') {
        DetailCommand::ReplyToMain
    } else if key_is(k, 'c') || key_is(k, 'C') {
        DetailCommand::ReplyToSelected
    } else if key_is(k, 'x') || key_is(k, 'X') {
        DetailCommand::ShowDeleteConfirmation
    } else {
        DetailCommand::Nothing
    }
}

/// What a key does on the chat tab.
#[derive(Debug, Clone, Copy, PartialEq, Eq, Structural)]
pub enum ChatCommand {
    Next,
    Previous,
    /// Start typing, without this key.
    FocusInput,
    /// Start typing, with this key going into the message box.
    StartTyping,
    /// Clear the message box and stop typing.
    ClearInput,
    /// Send the message.
    Send,
    /// Edit the message box with this key.
    EditInput,
}

pub open spec fn spec_chat_command(k: KeyCode, mode: InputMode) -> ChatCommand {
    match mode {
        InputMode::Navigation => if is_down_key(k) {
            ChatCommand::Next
        } else if is_up_key(k) {
            ChatCommand::Previous
        } else if k == KeyCode::Enter {
            ChatCommand::FocusInput
        } else {
            ChatCommand::StartTyping
        },
        InputMode::Typing => if k == KeyCode::Esc {
            ChatCommand::ClearInput
        } else if k == KeyCode::Enter {
            ChatCommand::Send
        } else {
            ChatCommand::EditInput
        },
    }
}

/// What key `k` does on the chat tab in input mode `mode`.
pub fn handle_chat_keys(k: KeyCode, mode: InputMode) -> (r: ChatCommand)
    ensures
        r == spec_chat_command(k, mode),
{
    match mode {
        InputMode::Navigation => if down_key(k) {
            ChatCommand::Next
        } else if up_key(k) {
            ChatCommand::Previous
        } else if is_enter(k) {
            ChatCommand::FocusInput
        } else {
            ChatCommand::StartTyping
        },
        InputMode::Typing => if is_esc(k) {
            ChatCommand::ClearInput
        } else if is_enter(k) {
            ChatCommand::Send
        } else {
            ChatCommand::EditInput
        },
    }
}

/// What a key does in the notifications overlay.
#[derive(Debug, Clone, Copy, PartialEq, Eq, Structural)]
pub enum NotificationsCommand {
    Nothing,
    Close,
    Next,
    Previous,
    /// Open the highlighted notification.
    Open,
}

pub open spec fn spec_notifications_command(k: KeyCode) -> NotificationsCommand {
    if k == KeyCode::Esc || k == KeyCode::Char('v') || k == KeyCode::Char('V') {
        NotificationsCommand::Close
    } else if is_down_key(k) {
        NotificationsCommand::Next
    } else if is_up_key(k) {
        NotificationsCommand::Previous
    } else if k == KeyCode::Enter || k == KeyCode::Char('a') || k == KeyCode::Char('A') {
        NotificationsCommand::Open
    } else {
        NotificationsCommand::Nothing
    }
}

/// What key `k` does in the notifications overlay.
pub fn handle_notifications_panel_keys(k: KeyCode) -> (r: NotificationsCommand)
    ensures
        r == spec_notifications_command(k),
{
    if is_esc(k) || key_is(k, 'v') || key_is(k, 'V') {
        NotificationsCommand::Close
    } else if down_key(k) {
        NotificationsCommand::Next
    } else if up_key(k) {
        NotificationsCommand::Previous
    } else if is_enter(k) || key_is(k, 'a') || key_is(k, 'A') {
        NotificationsCommand::Open
    } else {
        NotificationsCommand::Nothing
    }
}

/// What a key does on the profile tab outside the bio editor.
#[derive(Debug, Clone, Copy, PartialEq, Eq, Structural)]
pub enum ProfileCommand {
    Nothing,
    NextPost,
    PreviousPost,
    /// Edit the bio in the composer.
    EditBio,
    OpenFriends,
}

pub open spec fn spec_profile_command(k: KeyCode, has_profile: bool) -> ProfileCommand {
    if is_down_key(k) {
        ProfileCommand::NextPost
    } else if is_up_key(k) {
        ProfileCommand::PreviousPost
    } else if (k == KeyCode::Char('e') || k == KeyCode::Char('E')) && has_profile {
        ProfileCommand::EditBio
    } else if k == KeyCode::Char('f') || k == KeyCode::Char('F') {
        ProfileCommand::OpenFriends
    } else {
        ProfileCommand::Nothing
    }
}

/// What key `k` does on the profile tab.
pub fn handle_profile_keys(k: KeyCode, has_profile: bool) -> (r: ProfileCommand)
    ensures
        r == spec_profile_command(k, has_profile),
{
    if down_key(k) {
        ProfileCommand::NextPost
    } else if up_key(k) {
        ProfileCommand::PreviousPost
    } else if (key_is(k, 'e') || key_is(k, 'E')) && has_profile {
        ProfileCommand::EditBio
    } else if key_is(k, 'f') || key_is(k, 'F') {
        ProfileCommand::OpenFriends
    } else {
        ProfileCommand::Nothing
    }
}

/// `k` is Down, `j` or `J`.
pub open spec fn moves_down(k: KeyCode) -> bool {
    k == KeyCode::Down || k == KeyCode::Char('j') || k == KeyCode::Char('J')
}

/// `k` is Up, `k` or `K`.
pub open spec fn moves_up(k: KeyCode) -> bool {
    k == KeyCode::Up || k == KeyCode::Char('k') || k == KeyCode::Char('K')
}

/// In the thread view with nothing open over it, `r`/`R` reply to the main
/// post, `c`/`C` to the highlighted reply, Enter opens the full-post modal,
/// Esc leaves the view, Down/`j` and Up/`k` move among the replies and
/// `x`/`X` asks to delete. A reply to the highlighted reply comes from
/// `c`/`C` alone, whatever is open, and a reply to the main post from
/// `r`/`R` alone.
pub proof fn lemma_thread_view_keys(e: KeyEvent, fm: bool, rc: bool, dc: bool)
    ensures
        (e.code == KeyCode::Char('r') || e.code == KeyCode::Char('R')) ==> spec_detail_command(
            e,
            false,
            false,
            false,
        ) == DetailCommand::ReplyToMain,
        (e.code == KeyCode::Char('c') || e.code == KeyCode::Char('C')) ==> spec_detail_command(
            e,
            false,
            false,
            false,
        ) == DetailCommand::ReplyToSelected,
        e.code == KeyCode::Enter ==> spec_detail_command(e, false, false, false)
            == DetailCommand::OpenFullPostModal,
        e.code == KeyCode::Esc ==> spec_detail_command(e, false, false, false)
            == DetailCommand::ClosePostDetail,
        moves_down(e.code) ==> spec_detail_command(e, false, false, false) == DetailCommand::NextReply,
        moves_up(e.code) ==> spec_detail_command(e, false, false, false)
            == DetailCommand::PreviousReply,
        (e.code == KeyCode::Char('x') || e.code == KeyCode::Char('X')) ==> spec_detail_command(
            e,
            false,
            false,
            false,
        ) == DetailCommand::ShowDeleteConfirmation,
        spec_detail_command(e, fm, rc, dc) == DetailCommand::ReplyToSelected ==> (e.code
            == KeyCode::Char('c') || e.code == KeyCode::Char('C')),
        spec_detail_command(e, fm, rc, dc) == DetailCommand::ReplyToMain ==> (e.code
            == KeyCode::Char('r') || e.code == KeyCode::Char('R')),
{
}

/// In the full-post modal, `r`/`R` reply to the modal's post, Esc closes
/// it, Down/`j` and Up/`k` move and Space or Enter expands or collapses.
/// In the reply box every character is typed and Esc closes it. In the
/// delete confirmation `y`/`Y` confirms and `n`/`N`/Esc cancels.
pub proof fn lemma_thread_view_overlay_keys(e: KeyEvent, rc: bool, dc: bool, c: char)
    ensures
        (e.code == KeyCode::Char('r') || e.code == KeyCode::Char('R')) ==> spec_detail_command(
            e,
            true,
            rc,
            dc,
        ) == DetailCommand::ReplyToModalPost,
        e.code == KeyCode::Esc ==> spec_detail_command(e, true, rc, dc)
            == DetailCommand::CloseFullPostModal,
        moves_down(e.code) ==> spec_detail_command(e, true, rc, dc) == DetailCommand::ModalNext,
        moves_up(e.code) ==> spec_detail_command(e, true, rc, dc) == DetailCommand::ModalPrevious,
        (e.code == KeyCode::Char(' ') || e.code == KeyCode::Enter) ==> spec_detail_command(
            e,
            true,
            rc,
            dc,
        ) == DetailCommand::ModalToggle,
        e.code == KeyCode::Char(c) ==> spec_detail_command(e, false, true, dc)
            == DetailCommand::ReplyTypeChar(c),
        e.code == KeyCode::Esc ==> spec_detail_command(e, false, true, dc)
            == DetailCommand::CloseReplyComposer,
        (e.code == KeyCode::Char('y') || e.code == KeyCode::Char('Y')) ==> spec_detail_command(
            e,
            false,
            false,
            true,
        ) == DetailCommand::ConfirmDelete,
        (e.code == KeyCode::Char('n') || e.code == KeyCode::Char('N') || e.code == KeyCode::Esc)
            ==> spec_detail_command(e, false, false, true) == DetailCommand::CancelDelete,
{
}

/// In the filter modal with the add-hashtag input closed, Space checks or
/// unchecks the highlighted item on every tab, and nothing else does;
/// Down/`j` and Up/`k` move; Esc cancels; Tab/Right/`l` and Left/`h`
/// switch tabs. With the input open, every character is typed into it.
pub proof fn lemma_filter_modal_keys(k: KeyCode, tab: FilterTab, at_add_row: bool, c: char)
    ensures
        k == KeyCode::Char(' ') ==> spec_filter_command(k, tab, false, at_add_row)
            == FilterCommand::Toggle,
        spec_filter_command(k, tab, false, at_add_row) == FilterCommand::Toggle ==> k
            == KeyCode::Char(' '),
        moves_down(k) ==> spec_filter_command(k, tab, false, at_add_row) == FilterCommand::Down,
        moves_up(k) ==> spec_filter_command(k, tab, false, at_add_row) == FilterCommand::Up,
        k == KeyCode::Esc ==> spec_filter_command(k, tab, false, at_add_row) == FilterCommand::Cancel,
        (k == KeyCode::Tab || k == KeyCode::Right || k == KeyCode::Char('l')) ==> spec_filter_command(
            k,
            tab,
            false,
            at_add_row,
        ) == FilterCommand::NextTab,
        (k == KeyCode::Left || k == KeyCode::Char('h')) ==> spec_filter_command(
            k,
            tab,
            false,
            at_add_row,
        ) == FilterCommand::PreviousTab,
        k == KeyCode::Char(c) ==> spec_filter_command(k, tab, true, at_add_row)
            == FilterCommand::TypeHashtag(c),
{
}

/// On the chat tab while browsing, Down/`j`/`J` go to the next message and
/// Up/`k`/`K` to the previous one, and no other key moves; while typing,
/// Esc clears the box and Enter sends.
pub proof fn lemma_chat_keys(k: KeyCode)
    ensures
        moves_down(k) ==> spec_chat_command(k, InputMode::Navigation) == ChatCommand::Next,
        moves_up(k) ==> spec_chat_command(k, InputMode::Navigation) == ChatCommand::Previous,
        spec_chat_command(k, InputMode::Navigation) == ChatCommand::Next ==> moves_down(k),
        spec_chat_command(k, InputMode::Navigation) == ChatCommand::Previous ==> moves_up(k),
        k == KeyCode::Esc ==> spec_chat_command(k, InputMode::Typing) == ChatCommand::ClearInput,
        k == KeyCode::Enter ==> spec_chat_command(k, InputMode::Typing) == ChatCommand::Send,
{
}

/// On the sign-in screen, of `n_users` test users the first three can be
/// picked: Down moves the highlight one further while it is before the
/// last of them and stays otherwise, Up moves it one back down to the
/// first, and other keys leave it.
pub proof fn lemma_auth_selection(k: KeyCode, selected: usize, n_users: usize)
    ensures
        ({
            let shown: int = if n_users < 3 {
                n_users as int
            } else {
                3
            };
            &&& moves_down(k) && selected + 1 < shown ==> spec_auth_step(k, selected, n_users)
                == selected + 1
            &&& moves_down(k) && selected + 1 >= shown ==> spec_auth_step(k, selected, n_users)
                == selected
            &&& moves_up(k) && selected > 0 ==> spec_auth_step(k, selected, n_users) == selected - 1
            &&& moves_up(k) && selected == 0 ==> spec_auth_step(k, selected, n_users) == 0
            &&& !moves_down(k) && !moves_up(k) ==> spec_auth_step(k, selected, n_users) == selected
        }),
{
}

/// On the posts tab (no new-post box, no home list): Down/`j` and Up/`k`
/// move through the feed, `n`/`N` opens the composer, `f`/`F` the
/// filter, `s`/`S` user search, and `i`/`I` the community modal when a
/// community is open. On the home list Down/`j` and Up/`k` move through
/// the communities and `n` does nothing. In the new-post box characters are
/// typed and Backspace erases.
pub proof fn lemma_posts_keys(k: KeyCode, has_community: bool, home: bool, c: char)
    ensures
        moves_down(k) ==> spec_posts_command(k, false, false, has_community) == PostsCommand::NextPost,
        moves_up(k) ==> spec_posts_command(k, false, false, has_community)
            == PostsCommand::PreviousPost,
        (k == KeyCode::Char('n') || k == KeyCode::Char('N')) ==> spec_posts_command(
            k,
            false,
            false,
            has_community,
        ) == PostsCommand::OpenComposer,
        (k == KeyCode::Char('f') || k == KeyCode::Char('F')) ==> spec_posts_command(
            k,
            false,
            false,
            has_community,
        ) == PostsCommand::OpenFilter,
        (k == KeyCode::Char('s') || k == KeyCode::Char('S')) ==> spec_posts_command(
            k,
            false,
            false,
            has_community,
        ) == PostsCommand::OpenUserSearch,
        (k == KeyCode::Char('i') || k == KeyCode::Char('I')) ==> spec_posts_command(
            k,
            false,
            false,
            true,
        ) == PostsCommand::ShowCommunityModal,
        (k == KeyCode::Char('i') || k == KeyCode::Char('I')) ==> spec_posts_command(
            k,
            false,
            false,
            false,
        ) == PostsCommand::Nothing,
        moves_down(k) ==> spec_posts_command(k, false, true, has_community)
            == PostsCommand::NextHomeCommunity,
        moves_up(k) ==> spec_posts_command(k, false, true, has_community)
            == PostsCommand::PreviousHomeCommunity,
        k == KeyCode::Char('n') ==> spec_posts_command(k, false, true, has_community)
            == PostsCommand::Nothing,
        k == KeyCode::Char(c) ==> spec_posts_command(k, true, home, has_community)
            == PostsCommand::TypeChar(c),
        k == KeyCode::Backspace ==> spec_posts_command(k, true, home, has_community)
            == PostsCommand::EraseChar,
{
}

/// On the main screen Tab goes to the next tab and BackTab to the previous
/// one; any other key goes to the tab on show.
pub proof fn lemma_main_keys(k: KeyCode, tab: Tab)
    ensures
        k == KeyCode::Tab ==> spec_main_command(k, tab) == MainCommand::NextTab,
        k == KeyCode::BackTab ==> spec_main_command(k, tab) == MainCommand::PreviousTab,
        k != KeyCode::Tab && k != KeyCode::BackTab ==> spec_main_command(k, tab) == MainCommand::Tab(
            tab,
        ),
{
}

/// On the settings tab: Down/`j` and Up/`k` move between the fields;
/// Left/`h` steps the field's value back and Right/`l`/Enter forward; `s`
/// saves. In the save confirmation `y`/`Y` saves and `n`/`N` discards.
pub proof fn lemma_settings_keys(k: KeyCode, field: SettingsField)
    ensures
        moves_down(k) ==> spec_settings_command(k, field, false) == SettingsCommand::NextField,
        moves_up(k) ==> spec_settings_command(k, field, false) == SettingsCommand::PreviousField,
        (k == KeyCode::Left || k == KeyCode::Char('h')) ==> spec_settings_command(k, field, false)
            == match field {
            SettingsField::ColorScheme => SettingsCommand::CycleColorScheme { forward: false },
            SettingsField::SortOrder => SettingsCommand::CycleSortOrder { forward: false },
            SettingsField::MaxPosts => SettingsCommand::StepMaxPosts { up: false },
        },
        (k == KeyCode::Right || k == KeyCode::Char('l') || k == KeyCode::Enter)
            ==> spec_settings_command(k, field, false) == match field {
            SettingsField::ColorScheme => SettingsCommand::CycleColorScheme { forward: true },
            SettingsField::SortOrder => SettingsCommand::CycleSortOrder { forward: true },
            SettingsField::MaxPosts => SettingsCommand::StepMaxPosts { up: true },
        },
        (k == KeyCode::Char('y') || k == KeyCode::Char('Y')) ==> spec_settings_command(k, field, true)
            == SettingsCommand::Save,
        (k == KeyCode::Char('n') || k == KeyCode::Char('N')) ==> spec_settings_command(k, field, true)
            == SettingsCommand::Discard,
        k == KeyCode::Char('s') && field != SettingsField::MaxPosts ==> spec_settings_command(
            k,
            field,
            false,
        ) == SettingsCommand::Save,
{
}

/// In the notifications overlay Esc/`v` closes it, Down/`j` and Up/`k`
/// move, Enter/`a` opens the highlighted notification.
pub proof fn lemma_notifications_keys(k: KeyCode)
    ensures
        (k == KeyCode::Esc || k == KeyCode::Char('v') || k == KeyCode::Char('V'))
            ==> spec_notifications_command(k) == NotificationsCommand::Close,
        moves_down(k) ==> spec_notifications_command(k) == NotificationsCommand::Next,
        moves_up(k) ==> spec_notifications_command(k) == NotificationsCommand::Previous,
        (k == KeyCode::Enter || k == KeyCode::Char('a') || k == KeyCode::Char('A'))
            ==> spec_notifications_command(k) == NotificationsCommand::Open,
{
}

/// On the profile tab Down/`j` and Up/`k` move through the user's posts,
/// `e`/`E` edits the bio once the profile is loaded, `f`/`F` opens the
/// social modal.
pub proof fn lemma_profile_keys(k: KeyCode, has_profile: bool)
    ensures
        moves_down(k) ==> spec_profile_command(k, has_profile) == ProfileCommand::NextPost,
        moves_up(k) ==> spec_profile_command(k, has_profile) == ProfileCommand::PreviousPost,
        (k == KeyCode::Char('e') || k == KeyCode::Char('E')) ==> spec_profile_command(k, true)
            == ProfileCommand::EditBio,
        (k == KeyCode::Char('e') || k == KeyCode::Char('E')) ==> spec_profile_command(k, false)
            == ProfileCommand::Nothing,
        (k == KeyCode::Char('f') || k == KeyCode::Char('F')) ==> spec_profile_command(
            k,
            has_profile,
        ) == ProfileCommand::OpenFriends,
{
}

} // verus!
