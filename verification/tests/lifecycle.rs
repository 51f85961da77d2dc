use fido::lifecycle::{
    fallback_refresh, FallbackRefresh, fallback_poll_due, get_modal_context, handle_tab_changes, sync_realtime_lifecycle,
    LifecycleAction, ModalStateTracker, TabLoads,
};
use fido::realtime::RealtimeConnectionStatus as S;
use fido::state::Tab;

fn act(stop: bool, disable: bool, start: bool) -> LifecycleAction {
    LifecycleAction { stop, disable, start }
}

#[test]
fn realtime_runs_only_for_a_signed_in_user_on_main() {
    assert_eq!(sync_realtime_lifecycle(None, true, true, Some(1), true, S::Connected), act(true, true, false));
    assert_eq!(sync_realtime_lifecycle(Some(1), false, true, Some(1), true, S::Connected), act(true, true, false));
    assert_eq!(sync_realtime_lifecycle(Some(1), true, false, None, false, S::Disabled), act(true, true, false));
    assert_eq!(sync_realtime_lifecycle(Some(1), true, true, Some(1), true, S::Connected), act(false, false, false));
    assert_eq!(sync_realtime_lifecycle(Some(1), true, true, None, false, S::Disabled), act(true, false, true));
    assert_eq!(sync_realtime_lifecycle(Some(2), true, true, Some(1), true, S::Connected), act(true, false, true));
    assert_eq!(sync_realtime_lifecycle(Some(1), true, true, Some(1), false, S::Reconnecting), act(false, false, true));
    assert_eq!(sync_realtime_lifecycle(Some(1), true, true, Some(1), false, S::Unauthorized), act(false, false, false));
}

#[test]
fn polling_fallback() {
    assert!(fallback_poll_due(true, true, false));
    assert!(fallback_poll_due(true, false, true));
    assert!(!fallback_poll_due(true, false, false));
    assert!(!fallback_poll_due(false, true, true));
}

#[test]
fn tab_arrival_loads() {
    let none = TabLoads { profile: false, conversations: false, messages: false, settings: false };
    assert_eq!(handle_tab_changes(Tab::Profile, Tab::Profile, true, true, true, true), none);
    assert_eq!(
        handle_tab_changes(Tab::Profile, Tab::Posts, true, true, true, true),
        TabLoads { profile: true, ..none }
    );
    assert_eq!(
        handle_tab_changes(Tab::DMs, Tab::Posts, true, false, true, true),
        TabLoads { messages: true, ..none }
    );
    assert_eq!(
        handle_tab_changes(Tab::DMs, Tab::Posts, true, true, false, true),
        TabLoads { conversations: true, ..none }
    );
    assert_eq!(
        handle_tab_changes(Tab::Settings, Tab::DMs, false, false, false, true),
        TabLoads { settings: true, ..none }
    );
    assert_eq!(handle_tab_changes(Tab::Chat, Tab::Posts, true, true, true, true), none);
}

#[test]
fn modal_context_and_tracker() {
    assert_eq!(get_modal_context(true, true), "composer_open");
    assert_eq!(get_modal_context(false, true), "post_detail");
    assert_eq!(get_modal_context(false, false), "main_view");
    assert!(ModalStateTracker::opened(false, true));
    assert!(!ModalStateTracker::opened(true, true));
    assert!(!ModalStateTracker::opened(false, false));

    let mut t = ModalStateTracker::new();
    assert!(!t.user_search_step(true, "al"));
    assert!(t.user_search_step(true, "al"));
    assert!(!t.user_search_step(true, "al"));
    assert!(t.user_search_step(true, "ali"));
    assert!(!t.user_search_step(false, "ali"));
    assert_eq!(t.last_search_query, "");
    assert!(!t.user_search_step(true, ""));
    assert!(!t.user_search_step(true, ""));
}

#[test]
fn fallback_refreshes_the_shown_surface() {
    let none = FallbackRefresh { posts: false, conversations: false, chat: false, profile: false };
    assert_eq!(fallback_refresh(false, Tab::Posts, true, true), none);
    assert_eq!(fallback_refresh(true, Tab::Posts, true, false), FallbackRefresh { posts: true, ..none });
    assert_eq!(fallback_refresh(true, Tab::Posts, false, false), none);
    assert_eq!(fallback_refresh(true, Tab::DMs, false, false), FallbackRefresh { conversations: true, ..none });
    assert_eq!(fallback_refresh(true, Tab::Chat, true, false), FallbackRefresh { chat: true, ..none });
    assert_eq!(fallback_refresh(true, Tab::Chat, false, false), none);
    assert_eq!(fallback_refresh(true, Tab::Profile, false, true), FallbackRefresh { profile: true, ..none });
    assert_eq!(fallback_refresh(true, Tab::Profile, false, false), none);
    assert_eq!(fallback_refresh(true, Tab::Settings, true, true), none);
}

#[test]
fn tabs_that_load_their_data() {
    assert!(Tab::Profile.needs_data_load());
    assert!(Tab::DMs.needs_data_load());
    assert!(Tab::Settings.needs_data_load());
    assert!(!Tab::Posts.needs_data_load());
    assert!(!Tab::Chat.needs_data_load());
}
