//! The keys that start work outside the interface itself: requests to the
//! server, the browser, the GitHub login, quitting. The event loop asks
//! here first; every other key goes to the interface's own handlers.
use vstd::prelude::*;
use crate::keys::{is_char_key, KeyCode, KeyEvent};
use crate::post::VoteDirection;
use crate::state::{InputMode, Screen, Tab};

verus! {

/// What the dispatch needs to know of the interface.
#[derive(Debug, Clone, Copy, PartialEq, Eq, Structural)]
pub struct AsyncKeyContext {
    pub screen: Screen,
    pub tab: Tab,
    pub input_mode: InputMode,
    /// The auth screen is loading test users or logging in.
    pub auth_loading: bool,
    pub github_auth_in_progress: bool,
    pub show_github_option: bool,
    pub composer_open: bool,
    pub new_conversation_modal_open: bool,
    pub filter_modal_open: bool,
    pub browser_open: bool,
    pub browser_loading: bool,
    pub browser_joining: bool,
    pub viewing_post_detail: bool,
    /// Another user's profile is shown.
    pub profile_view_open: bool,
    pub new_post_modal_open: bool,
    pub user_search_open: bool,
    /// Home mode with no board open.
    pub home_list_active: bool,
    pub community_modal_open: bool,
    /// A community is shown and nobody has claimed it.
    pub community_claimable: bool,
    /// The launch repository's community could not be entered.
    pub community_error: bool,
    /// The joined-communities list failed to load.
    pub home_error: bool,
    pub save_confirmation: bool,
    /// The post detail view asks to confirm a delete.
    pub delete_confirmation: bool,
    pub friends_modal_open: bool,
    pub friends_search_mode: bool,
    /// A pending DM request is selected.
    pub dm_request_selected: bool,
}

/// The work a key starts.
#[derive(Debug, Clone, Copy, PartialEq, Eq, Structural)]
pub enum AsyncKeyAction {
    Quit,
    LoadTestUsers,
    StartGithubLogin,
    CancelGithubLogin,
    /// Open the GitHub verification page in the browser.
    OpenVerificationPage,
    LoginSelectedUser,
    SubmitComposer,
    StartNewConversation,
    /// Enter in the filter modal (see `FilterModalState::filter_on_enter`).
    FilterModalEnter,
    OpenCommunityBrowser,
    OpenOrJoinRepo,
    ReloadCommunityBrowser,
    OpenHomeSelection,
    OpenSelectedPost,
    ClaimCommunity,
    RetryCommunity,
    SendDm,
    Vote(VoteDirection),
    SaveSettings,
    DeletePost,
    /// Save the settings, then go where the user was headed.
    SaveAndSwitch,
    Logout,
    ProfileFromFriends,
    ProfileFromSearch,
    ProfileOfPostAuthor,
    ProfileFromConversation,
    ToggleFollow,
    MessageFromProfile,
    AcceptDmRequest,
    DeclineDmRequest,
    /// Nothing outside the interface: the interface handles the key.
    Interface,
}

/// The posts list (not a modal or the detail view) takes the key.
pub open spec fn posts_list_focused(c: AsyncKeyContext) -> bool {
    &&& c.tab == Tab::Posts
    &&& !c.new_post_modal_open
    &&& !c.viewing_post_detail
    &&& !c.composer_open
    &&& !c.filter_modal_open
    &&& !c.user_search_open
    &&& !c.profile_view_open
}

/// The posts tab of the main screen takes a vote key.
pub open spec fn vote_allowed(c: AsyncKeyContext) -> bool {
    &&& c.screen == Screen::Main
    &&& c.tab == Tab::Posts
    &&& !c.composer_open
    &&& !c.filter_modal_open
    &&& !c.profile_view_open
}

/// The first rule that applies to key `k` in context `c`, in the order the
/// event loop asks them.
pub open spec fn spec_async_action(e: KeyEvent, c: AsyncKeyContext) -> AsyncKeyAction {
    let k = e.code;
    let auth = c.screen == Screen::Auth;
    let main = c.screen == Screen::Main;
    let nav = c.input_mode == InputMode::Navigation;
    if k == KeyCode::Char('c') && e.modifiers.control {
        AsyncKeyAction::Quit
    } else if k == KeyCode::Char('l') && auth && !c.auth_loading {
        AsyncKeyAction::LoadTestUsers
    } else if is_char_key(k, 'g', 'G') && auth && !c.auth_loading && !c.github_auth_in_progress
        && c.show_github_option {
        AsyncKeyAction::StartGithubLogin
    } else if k == KeyCode::Esc && auth && c.github_auth_in_progress {
        AsyncKeyAction::CancelGithubLogin
    } else if is_char_key(k, 'o', 'O') && auth && c.github_auth_in_progress {
        AsyncKeyAction::OpenVerificationPage
    } else if k == KeyCode::Enter && auth && !c.auth_loading && !c.github_auth_in_progress {
        AsyncKeyAction::LoginSelectedUser
    } else if k == KeyCode::Enter && c.composer_open {
        AsyncKeyAction::SubmitComposer
    } else if k == KeyCode::Enter && c.new_conversation_modal_open {
        AsyncKeyAction::StartNewConversation
    } else if k == KeyCode::Enter && c.filter_modal_open {
        AsyncKeyAction::FilterModalEnter
    } else if is_char_key(k, 'b', 'B') && main && nav && !c.browser_open && !c.composer_open
        && !c.viewing_post_detail && !c.profile_view_open {
        AsyncKeyAction::OpenCommunityBrowser
    } else if k == KeyCode::Enter && main && c.browser_open && !c.browser_loading
        && !c.browser_joining {
        AsyncKeyAction::OpenOrJoinRepo
    } else if is_char_key(k, 'r', 'R') && main && c.browser_open && !c.browser_loading
        && !c.browser_joining {
        AsyncKeyAction::ReloadCommunityBrowser
    } else if (k == KeyCode::Enter || k == KeyCode::Char(' ')) && posts_list_focused(c) {
        if c.home_list_active {
            AsyncKeyAction::OpenHomeSelection
        } else {
            AsyncKeyAction::OpenSelectedPost
        }
    } else if is_char_key(k, 'c', 'C') && c.community_modal_open && c.community_claimable {
        AsyncKeyAction::ClaimCommunity
    } else if is_char_key(k, 'r', 'R') && main && c.tab == Tab::Posts && !c.viewing_post_detail
        && !c.composer_open && (c.community_error || (c.home_list_active && c.home_error)) {
        AsyncKeyAction::RetryCommunity
    } else if k == KeyCode::Enter && c.tab == Tab::DMs && !c.new_conversation_modal_open
        && c.input_mode == InputMode::Typing {
        AsyncKeyAction::SendDm
    } else if is_char_key(k, 'u', 'U') && vote_allowed(c) {
        AsyncKeyAction::Vote(VoteDirection::Up)
    } else if is_char_key(k, 'd', 'D') && vote_allowed(c) {
        AsyncKeyAction::Vote(VoteDirection::Down)
    } else if is_char_key(k, 's', 'S') && main && c.tab == Tab::Settings && !c.save_confirmation {
        AsyncKeyAction::SaveSettings
    } else if is_char_key(k, 'y', 'Y') && c.viewing_post_detail && c.delete_confirmation {
        AsyncKeyAction::DeletePost
    } else if is_char_key(k, 'y', 'Y') && c.save_confirmation {
        AsyncKeyAction::SaveAndSwitch
    } else if k == KeyCode::Char('L') && main {
        AsyncKeyAction::Logout
    } else if is_char_key(k, 'p', 'P') && !c.profile_view_open && c.friends_modal_open
        && !c.friends_search_mode {
        AsyncKeyAction::ProfileFromFriends
    } else if k == KeyCode::Enter && !c.profile_view_open && c.user_search_open {
        AsyncKeyAction::ProfileFromSearch
    } else if is_char_key(k, 'p', 'P') && !c.profile_view_open && main && c.tab == Tab::Posts
        && !c.viewing_post_detail && !c.composer_open && !c.filter_modal_open
        && !c.home_list_active && nav {
        AsyncKeyAction::ProfileOfPostAuthor
    } else if is_char_key(k, 'p', 'P') && !c.profile_view_open && c.tab == Tab::DMs && nav
        && !c.new_conversation_modal_open {
        AsyncKeyAction::ProfileFromConversation
    } else if is_char_key(k, 'f', 'F') && c.profile_view_open {
        AsyncKeyAction::ToggleFollow
    } else if is_char_key(k, 'm', 'M') && c.profile_view_open {
        AsyncKeyAction::MessageFromProfile
    } else if is_char_key(k, 'a', 'A') && c.tab == Tab::DMs && nav && c.dm_request_selected {
        AsyncKeyAction::AcceptDmRequest
    } else if is_char_key(k, 'x', 'X') && c.tab == Tab::DMs && nav && c.dm_request_selected {
        AsyncKeyAction::DeclineDmRequest
    } else {
        AsyncKeyAction::Interface
    }
}

fn ch(k: KeyCode, a: char, b: char) -> (r: bool)
    ensures
        r == is_char_key(k, a, b),
{
    match k {
        KeyCode::Char(x) => x == a || x == b,
        _ => false,
    }
}

/// What key press `e` starts in context `c` (see `spec_async_action`).
pub fn async_key_action(e: KeyEvent, c: &AsyncKeyContext) -> (r: AsyncKeyAction)
    ensures
        r == spec_async_action(e, *c),
{
    let k = e.code;
    let auth = c.screen == Screen::Auth;
    let main = c.screen == Screen::Main;
    let nav = c.input_mode == InputMode::Navigation;
    let enter = k == KeyCode::Enter;
    if ch(k, 'c', 'c') && e.modifiers.control {
        AsyncKeyAction::Quit
    } else if ch(k, 'l', 'l') && auth && !c.auth_loading {
        AsyncKeyAction::LoadTestUsers
    } else if ch(k, 'g', 'G') && auth && !c.auth_loading && !c.github_auth_in_progress
        && c.show_github_option {
        AsyncKeyAction::StartGithubLogin
    } else if k == KeyCode::Esc && auth && c.github_auth_in_progress {
        AsyncKeyAction::CancelGithubLogin
    } else if ch(k, 'o', 'O') && auth && c.github_auth_in_progress {
        AsyncKeyAction::OpenVerificationPage
    } else if enter && auth && !c.auth_loading && !c.github_auth_in_progress {
        AsyncKeyAction::LoginSelectedUser
    } else if enter && c.composer_open {
        AsyncKeyAction::SubmitComposer
    } else if enter && c.new_conversation_modal_open {
        AsyncKeyAction::StartNewConversation
    } else if enter && c.filter_modal_open {
        AsyncKeyAction::FilterModalEnter
    } else if ch(k, 'b', 'B') && main && nav && !c.browser_open && !c.composer_open
        && !c.viewing_post_detail && !c.profile_view_open {
        AsyncKeyAction::OpenCommunityBrowser
    } else if enter && main && c.browser_open && !c.browser_loading && !c.browser_joining {
        AsyncKeyAction::OpenOrJoinRepo
    } else if ch(k, 'r', 'R') && main && c.browser_open && !c.browser_loading
        && !c.browser_joining {
        AsyncKeyAction::ReloadCommunityBrowser
    } else if (enter || ch(k, ' ', ' ')) && c.tab == Tab::Posts && !c.new_post_modal_open
        && !c.viewing_post_detail && !c.composer_open && !c.filter_modal_open
        && !c.user_search_open && !c.profile_view_open {
        if c.home_list_active {
            AsyncKeyAction::OpenHomeSelection
        } else {
            AsyncKeyAction::OpenSelectedPost
        }
    } else if ch(k, 'c', 'C') && c.community_modal_open && c.community_claimable {
        AsyncKeyAction::ClaimCommunity
    } else if ch(k, 'r', 'R') && main && c.tab == Tab::Posts && !c.viewing_post_detail
        && !c.composer_open && (c.community_error || (c.home_list_active && c.home_error)) {
        AsyncKeyAction::RetryCommunity
    } else if enter && c.tab == Tab::DMs && !c.new_conversation_modal_open && c.input_mode
        == InputMode::Typing {
        AsyncKeyAction::SendDm
    } else if ch(k, 'u', 'U') && main && c.tab == Tab::Posts && !c.composer_open
        && !c.filter_modal_open && !c.profile_view_open {
        AsyncKeyAction::Vote(VoteDirection::Up)
    } else if ch(k, 'd', 'D') && main && c.tab == Tab::Posts && !c.composer_open
        && !c.filter_modal_open && !c.profile_view_open {
        AsyncKeyAction::Vote(VoteDirection::Down)
    } else if ch(k, 's', 'S') && main && c.tab == Tab::Settings && !c.save_confirmation {
        AsyncKeyAction::SaveSettings
    } else if ch(k, 'y', 'Y') && c.viewing_post_detail && c.delete_confirmation {
        AsyncKeyAction::DeletePost
    } else if ch(k, 'y', 'Y') && c.save_confirmation {
        AsyncKeyAction::SaveAndSwitch
    } else if ch(k, 'L', 'L') && main {
        AsyncKeyAction::Logout
    } else if ch(k, 'p', 'P') && !c.profile_view_open && c.friends_modal_open
        && !c.friends_search_mode {
        AsyncKeyAction::ProfileFromFriends
    } else if enter && !c.profile_view_open && c.user_search_open {
        AsyncKeyAction::ProfileFromSearch
    } else if ch(k, 'p', 'P') && !c.profile_view_open && main && c.tab == Tab::Posts
        && !c.viewing_post_detail && !c.composer_open && !c.filter_modal_open
        && !c.home_list_active && nav {
        AsyncKeyAction::ProfileOfPostAuthor
    } else if ch(k, 'p', 'P') && !c.profile_view_open && c.tab == Tab::DMs && nav
        && !c.new_conversation_modal_open {
        AsyncKeyAction::ProfileFromConversation
    } else if ch(k, 'f', 'F') && c.profile_view_open {
        AsyncKeyAction::ToggleFollow
    } else if ch(k, 'm', 'M') && c.profile_view_open {
        AsyncKeyAction::MessageFromProfile
    } else if ch(k, 'a', 'A') && c.tab == Tab::DMs && nav && c.dm_request_selected {
        AsyncKeyAction::AcceptDmRequest
    } else if ch(k, 'x', 'X') && c.tab == Tab::DMs && nav && c.dm_request_selected {
        AsyncKeyAction::DeclineDmRequest
    } else {
        AsyncKeyAction::Interface
    }
}

/// Ctrl+C quits from every screen and every state of the interface.
pub proof fn lemma_ctrl_c_quits_before_any_work(e: KeyEvent, c: AsyncKeyContext)
    requires
        e.code == KeyCode::Char('c'),
        e.modifiers.control,
    ensures
        spec_async_action(e, c) == AsyncKeyAction::Quit,
{
}

/// While the composer is open on the posts tab, typed characters go to it:
/// none of the letter shortcuts (voting, profiles, the repository browser,
/// retrying) starts work. Capital `L` is the exception: it logs out.
pub proof fn lemma_typing_keeps_letters(e: KeyEvent, c: AsyncKeyContext, x: char)
    requires
        e.code == KeyCode::Char(x),
        !e.modifiers.control,
        c.screen == Screen::Main,
        c.composer_open,
        !c.community_modal_open,
        !c.save_confirmation,
        !c.delete_confirmation,
        !c.profile_view_open,
        !c.friends_modal_open,
        !c.browser_open,
        c.tab == Tab::Posts,
        x != 'L',
    ensures
        spec_async_action(e, c) == AsyncKeyAction::Interface,
{
}

/// An upvote comes only from `u`/`U` and a downvote only from `d`/`D`.
/// On the posts tab of the main screen with no composer, filter or profile
/// over it and nothing else open that takes the key, `u`/`U` upvotes and
/// `d`/`D` downvotes the post in view.
pub proof fn lemma_vote_keys(e: KeyEvent, c: AsyncKeyContext)
    ensures
        spec_async_action(e, c) == AsyncKeyAction::Vote(VoteDirection::Up) ==> (e.code
            == KeyCode::Char('u') || e.code == KeyCode::Char('U')),
        spec_async_action(e, c) == AsyncKeyAction::Vote(VoteDirection::Down) ==> (e.code
            == KeyCode::Char('d') || e.code == KeyCode::Char('D')),
        (e.code == KeyCode::Char('u') || e.code == KeyCode::Char('U')) && c.screen == Screen::Main
            && c.tab == Tab::Posts && !c.composer_open && !c.filter_modal_open
            && !c.profile_view_open && !(c.community_modal_open && c.community_claimable)
            ==> spec_async_action(e, c) == AsyncKeyAction::Vote(VoteDirection::Up),
        (e.code == KeyCode::Char('d') || e.code == KeyCode::Char('D')) && c.screen == Screen::Main
            && c.tab == Tab::Posts && !c.composer_open && !c.filter_modal_open
            && !c.profile_view_open ==> spec_async_action(e, c) == AsyncKeyAction::Vote(
            VoteDirection::Down,
        ),
{
}

} // verus!
