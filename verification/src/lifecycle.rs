//! Decisions of the main loop: when the realtime connection runs, what is
//! loaded when a tab or a modal opens, and when the polling fallback polls.
use vstd::prelude::*;
use crate::realtime::RealtimeConnectionStatus;
use crate::detail::PostDetailState;
use crate::feed::PostsState;
use crate::state::Tab;
use crate::text::{owned, str_eq};

verus! {

/// What to do with the realtime connection on one turn of the loop.
#[derive(Debug, Clone, Copy, PartialEq, Eq, Structural)]
pub struct LifecycleAction {
    /// Stop the running connection task.
    pub stop: bool,
    /// Show the connection as disabled.
    pub disable: bool,
    /// Start a connection task for the signed-in user.
    pub start: bool,
}

/// The realtime connection runs only for a signed-in user on the main
/// screen with a session token. It is restarted when the user changed, and
/// not started again after the server refused the token.
pub open spec fn spec_lifecycle(
    user: Option<u128>,
    on_main: bool,
    has_token: bool,
    running_for: Option<u128>,
    task_running: bool,
    status: RealtimeConnectionStatus,
) -> LifecycleAction {
    if user is None || !on_main || !has_token {
        LifecycleAction { stop: true, disable: true, start: false }
    } else {
        let stop = running_for != user;
        let running = task_running && !stop;
        LifecycleAction {
            stop: stop,
            disable: false,
            start: !running && status != RealtimeConnectionStatus::Unauthorized,
        }
    }
}

/// The realtime lifecycle step for `user` (signed in or not), whether the
/// main screen is shown and a token is held, the user the running task
/// serves, whether a task runs, and the connection status.
pub fn sync_realtime_lifecycle(
    user: Option<u128>,
    on_main: bool,
    has_token: bool,
    running_for: Option<u128>,
    task_running: bool,
    status: RealtimeConnectionStatus,
) -> (r: LifecycleAction)
    ensures
        r == spec_lifecycle(user, on_main, has_token, running_for, task_running, status),
{
    let u = match user {
        Some(u) => u,
        None => {
            return LifecycleAction { stop: true, disable: true, start: false };
        },
    };
    if !on_main || !has_token {
        return LifecycleAction { stop: true, disable: true, start: false };
    }
    let stop = match running_for {
        Some(r) => r != u,
        None => true,
    };
    let running = task_running && !stop;
    let unauthorized = match status {
        RealtimeConnectionStatus::Unauthorized => true,
        _ => false,
    };
    LifecycleAction { stop, disable: false, start: !running && !unauthorized }
}

/// The polling fallback polls while it is active, when its interval has
/// passed or the connection asked for a refetch.
pub fn fallback_poll_due(active: bool, interval_passed: bool, refetch_pending: bool) -> (r: bool)
    ensures
        r == (active && (interval_passed || refetch_pending)),
{
    active && (interval_passed || refetch_pending)
}

/// What the polling fallback refreshes besides the unread counters.
#[derive(Debug, Clone, Copy, PartialEq, Eq, Structural)]
pub struct FallbackRefresh {
    pub posts: bool,
    /// The conversation list, then the selected conversation's messages.
    pub conversations: bool,
    pub chat: bool,
    pub profile: bool,
}

/// The shown surface is refreshed: on the main screen, the feed and the
/// chat of an open community, the DM list, and the profile once loaded.
pub open spec fn spec_fallback_refresh(on_main: bool, tab: Tab, has_community: bool, has_profile: bool) -> FallbackRefresh {
    FallbackRefresh {
        posts: on_main && tab == Tab::Posts && has_community,
        conversations: on_main && tab == Tab::DMs,
        chat: on_main && tab == Tab::Chat && has_community,
        profile: on_main && tab == Tab::Profile && has_profile,
    }
}

/// What the polling fallback refreshes on `tab`.
pub fn fallback_refresh(on_main: bool, tab: Tab, has_community: bool, has_profile: bool) -> (r: FallbackRefresh)
    ensures
        r == spec_fallback_refresh(on_main, tab, has_community, has_profile),
{
    let none = FallbackRefresh { posts: false, conversations: false, chat: false, profile: false };
    if !on_main {
        return none;
    }
    match tab {
        Tab::Posts => FallbackRefresh { posts: has_community, ..none },
        Tab::DMs => FallbackRefresh { conversations: true, ..none },
        Tab::Chat => FallbackRefresh { chat: has_community, ..none },
        Tab::Profile => FallbackRefresh { profile: has_profile, ..none },
        Tab::Settings => none,
    }
}

/// What to load when the shown tab changes.
#[derive(Debug, Clone, Copy, PartialEq, Eq, Structural)]
pub struct TabLoads {
    pub profile: bool,
    pub conversations: bool,
    /// Ask for the selected conversation's messages.
    pub messages: bool,
    pub settings: bool,
}

/// On arriving at a tab: the profile, the conversation list or the
/// settings are loaded when missing or after an error; arriving at the DM
/// tab with a conversation selected also loads its messages.
pub open spec fn spec_tab_loads(
    tab: Tab,
    last_tab: Tab,
    profile_stale: bool,
    conversations_stale: bool,
    conversation_selected: bool,
    settings_stale: bool,
) -> TabLoads {
    if tab == last_tab {
        TabLoads { profile: false, conversations: false, messages: false, settings: false }
    } else {
        TabLoads {
            profile: tab == Tab::Profile && profile_stale,
            conversations: tab == Tab::DMs && conversations_stale,
            messages: tab == Tab::DMs && conversation_selected,
            settings: tab == Tab::Settings && settings_stale,
        }
    }
}

/// What arriving at `tab` from `last_tab` loads.
pub fn handle_tab_changes(
    tab: Tab,
    last_tab: Tab,
    profile_stale: bool,
    conversations_stale: bool,
    conversation_selected: bool,
    settings_stale: bool,
) -> (r: TabLoads)
    ensures
        r == spec_tab_loads(
            tab,
            last_tab,
            profile_stale,
            conversations_stale,
            conversation_selected,
            settings_stale,
        ),
{
    if tab == last_tab {
        return TabLoads { profile: false, conversations: false, messages: false, settings: false };
    }
    match tab {
        Tab::Profile => TabLoads {
            profile: profile_stale,
            conversations: false,
            messages: false,
            settings: false,
        },
        Tab::DMs => TabLoads {
            profile: false,
            conversations: conversations_stale,
            messages: conversation_selected,
            settings: false,
        },
        Tab::Settings => TabLoads {
            profile: false,
            conversations: false,
            messages: false,
            settings: settings_stale,
        },
        _ => TabLoads { profile: false, conversations: false, messages: false, settings: false },
    }
}

/// The context of a key press for the debug log.
pub fn get_modal_context(composer_open: bool, viewing_post_detail: bool) -> (r: &'static str)
    ensures
        r@ == (if composer_open {
            "composer_open"@
        } else if viewing_post_detail {
            "post_detail"@
        } else {
            "main_view"@
        }),
{
    if composer_open {
        "composer_open"
    } else if viewing_post_detail {
        "post_detail"
    } else {
        "main_view"
    }
}

/// Which modals were open on the previous turn, to load their data when
/// they open.
pub struct ModalStateTracker {
    pub filter_modal: bool,
    pub friends_modal: bool,
    pub new_conversation_modal: bool,
    pub user_search_modal: bool,
    pub last_search_query: String,
    pub community_modal: bool,
}

impl ModalStateTracker {
    /// Every modal closed.
    pub fn new() -> (s: Self)
        ensures
            !s.filter_modal && !s.friends_modal && !s.new_conversation_modal,
            !s.user_search_modal && !s.community_modal,
            s.last_search_query@.len() == 0,
    {
        ModalStateTracker {
            filter_modal: false,
            friends_modal: false,
            new_conversation_modal: false,
            user_search_modal: false,
            last_search_query: String::new(),
            community_modal: false,
        }
    }

    /// A modal's data is loaded when it is open now and was not before.
    pub fn opened(was_open: bool, open: bool) -> (r: bool)
        ensures
            r == (open && !was_open),
    {
        open && !was_open
    }

    /// The user search runs when the modal stays open and the query
    /// changed since the last search; the query searched is remembered, and
    /// forgotten when the modal closes.
    pub fn user_search_step(&mut self, open: bool, query: &str) -> (search: bool)
        ensures
            (final(self).user_search_modal, final(self).last_search_query@, search)
                == spec_search_step(
                old(self).user_search_modal,
                old(self).last_search_query@,
                open,
                query@,
            ),
            final(self).filter_modal == old(self).filter_modal,
            final(self).friends_modal == old(self).friends_modal,
            final(self).new_conversation_modal == old(self).new_conversation_modal,
            final(self).community_modal == old(self).community_modal,
    {
        if open {
            if !self.user_search_modal {
                self.user_search_modal = true;
                self.last_search_query = String::new();
                false
            } else if !str_eq(query, self.last_search_query.as_str()) {
                self.last_search_query = owned(query);
                true
            } else {
                false
            }
        } else {
            self.user_search_modal = false;
            self.last_search_query = String::new();
            false
        }
    }
}

/// The user-search tracking after a turn with the modal `open` and query
/// `q`, from tracking state `was` and last query `last`: whether the modal
/// is tracked as open, the remembered query, and whether to search.
pub open spec fn spec_search_step(was: bool, last: Seq<char>, open: bool, q: Seq<char>) -> (bool, Seq<char>, bool) {
    if open {
        if !was {
            (true, Seq::empty(), false)
        } else if q != last {
            (true, q, true)
        } else {
            (true, last, false)
        }
    } else {
        (false, Seq::empty(), false)
    }
}

/// A query is searched once: a second turn with the modal still open and
/// the same query searches nothing.
pub proof fn lemma_search_once(was: bool, last: Seq<char>, q: Seq<char>)
    ensures
        ({
            let (t1, l1, _) = spec_search_step(was, last, true, q);
            let (t2, l2, s2) = spec_search_step(t1, l1, true, q);
            t1 && l1 == q ==> !s2 && l2 == l1
        }),
{
}


/// How long a notice stays, in milliseconds.
pub const MESSAGE_LIFETIME_MS: u64 = 3000;

/// A notice shown at `shown_at` (milliseconds) has expired at `now`: more
/// than three seconds have passed.
pub open spec fn notice_expired(shown_at: u64, now: u64) -> bool {
    now - shown_at > 3000
}

/// The notice `m` as it stands at time `now`: gone once expired.
pub open spec fn notice_at(m: Option<(String, u64)>, now: u64) -> Option<(String, u64)> {
    match m {
        Some((t, at)) => if notice_expired(at, now) {
            None
        } else {
            m
        },
        None => None,
    }
}

fn clear_if_expired(m: &mut Option<(String, u64)>, now_ms: u64)
    ensures
        *final(m) == notice_at(*old(m), now_ms),
{
    let expired = match m {
        Some((_, at)) => now_ms > *at && now_ms - *at > MESSAGE_LIFETIME_MS,
        None => false,
    };
    if expired {
        *m = None;
    }
}

/// Drop the notices of the feed and of the post detail view that have been
/// shown for more than three seconds at time `now_ms`.
pub fn clear_expired_messages(posts: &mut PostsState, detail: &mut Option<PostDetailState>, now_ms: u64)
    ensures
        *final(posts) == (PostsState { message: notice_at(old(posts).message, now_ms), ..*old(posts) }),
        match *old(detail) {
            Some(d) => *final(detail) == Some(
                PostDetailState { message: notice_at(d.message, now_ms), ..d },
            ),
            None => *final(detail) is None,
        },
{
    clear_if_expired(&mut posts.message, now_ms);
    match detail {
        Some(d) => {
            clear_if_expired(&mut d.message, now_ms);
        },
        None => {},
    }
}

} // verus!
