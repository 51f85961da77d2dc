use std::collections::HashSet;

use fido::detail::PostDetailState;
use fido::lifecycle::clear_expired_messages;
use fido::route::FilterCommand as F;

use fido::feed::{
    eq_ignore_ascii_case, post_matches_filter, sort_and_limit_posts, stable_order, toggle_string,
    FilterEnter, Moderation, PostsState,
};
use fido::post::{Post, VoteDirection, VoteRequest};
use fido::state::{
    ColorScheme, FilterModalState, FilterTab, InputMode, PostFilter, SortOrder, UserConfig,
};

fn post(id: u128, created_at: i64, up: i32, down: i32) -> Post {
    Post {
        id,
        author_id: 1,
        author_username: "alice".to_string(),
        content: format!("post {}", id),
        community_id: 9,
        parent_post_id: None,
        upvotes: up,
        downvotes: down,
        user_vote: None,
        created_at,
        hashtags: vec![],
        approved: true,
        reply_count: 0,
    }
}

fn config(order: SortOrder, max: i32) -> Option<UserConfig> {
    Some(UserConfig {
        color_scheme: ColorScheme::Default,
        sort_order: order,
        max_posts_display: max,
        emoji_enabled: true,
    })
}

fn ids(posts: &[Post]) -> Vec<u128> {
    posts.iter().map(|p| p.id).collect()
}

#[test]
fn newest_first_and_default_limit() {
    let mut posts: Vec<Post> = (0..30).map(|i| post(i, i as i64, 0, 0)).collect();
    sort_and_limit_posts(&mut posts, None);
    assert_eq!(posts.len(), 25);
    assert_eq!(posts[0].id, 29);
    assert_eq!(posts[24].id, 5);
}

#[test]
fn popular_then_newest() {
    let mut posts = vec![post(1, 10, 5, 0), post(2, 20, 9, 0), post(3, 30, 5, 0)];
    sort_and_limit_posts(&mut posts, config(SortOrder::Popular, 10));
    assert_eq!(ids(&posts), vec![2, 3, 1]);
}

#[test]
fn controversial_is_most_balanced_first() {
    let mut posts = vec![post(1, 10, 10, 0), post(2, 20, 5, 5), post(3, 30, 3, 1), post(4, 5, 4, 4)];
    sort_and_limit_posts(&mut posts, config(SortOrder::Controversial, 3));
    assert_eq!(ids(&posts), vec![2, 4, 3]);
}

#[test]
fn equal_keys_keep_their_order_and_limit_is_at_least_one() {
    let posts = vec![post(1, 5, 0, 0), post(2, 5, 0, 0), post(3, 5, 0, 0)];
    assert_eq!(stable_order(&posts, SortOrder::Newest), vec![0, 1, 2]);
    let mut cut = vec![post(1, 5, 0, 0), post(2, 5, 0, 0), post(3, 5, 0, 0)];
    sort_and_limit_posts(&mut cut, config(SortOrder::Newest, 0));
    assert_eq!(ids(&cut), vec![1]);
}

#[test]
fn filters_match_hashtags_and_users_ignoring_case() {
    let mut p = post(1, 0, 0, 0);
    p.hashtags = vec!["Rust".to_string()];
    assert!(post_matches_filter(&p, &PostFilter::All));
    let by_tag = PostFilter::Multi { hashtags: vec!["rust".to_string()], users: vec![] };
    assert!(post_matches_filter(&p, &by_tag));
    let by_user = PostFilter::Multi { hashtags: vec![], users: vec!["ALICE".to_string()] };
    assert!(post_matches_filter(&p, &by_user));
    let other = PostFilter::Multi { hashtags: vec!["go".to_string()], users: vec!["bob".to_string()] };
    assert!(!post_matches_filter(&p, &other));
    assert!(eq_ignore_ascii_case("HeLLo", "hello"));
    assert!(!eq_ignore_ascii_case("hello", "hell"));
}

fn feed_with(posts: Vec<Post>) -> PostsState {
    let mut s = PostsState::new();
    s.posts = posts;
    s
}

#[test]
fn realtime_thread_is_added_once() {
    let mut s = feed_with(vec![post(1, 10, 0, 0), post(2, 5, 0, 0)]);
    s.selected = Some(1);
    let mut seen = HashSet::new();
    s.apply_realtime_thread(post(3, 20, 0, 0), &mut seen, Some(9), None);
    assert_eq!(ids(&s.posts), vec![3, 1, 2]);
    assert_eq!(s.selected, Some(2));
    assert!(seen.contains(&3));
    s.apply_realtime_thread(post(3, 20, 0, 0), &mut seen, Some(9), None);
    assert_eq!(ids(&s.posts), vec![3, 1, 2]);
}

#[test]
fn realtime_thread_rejections() {
    let mut s = feed_with(vec![]);
    let mut seen = HashSet::new();
    let mut reply = post(4, 1, 0, 0);
    reply.parent_post_id = Some(1);
    s.apply_realtime_thread(reply, &mut seen, Some(9), None);
    let mut unapproved = post(5, 1, 0, 0);
    unapproved.approved = false;
    s.apply_realtime_thread(unapproved, &mut seen, Some(9), None);
    s.apply_realtime_thread(post(6, 1, 0, 0), &mut seen, Some(8), None);
    s.apply_realtime_thread(post(7, 1, 0, 0), &mut seen, None, None);
    s.current_filter = PostFilter::Multi { hashtags: vec!["x".to_string()], users: vec![] };
    s.apply_realtime_thread(post(8, 1, 0, 0), &mut seen, Some(9), None);
    assert!(s.posts.is_empty());
    assert_eq!(seen.len(), 5);
}

#[test]
fn feed_navigation_flags_end() {
    let mut s = feed_with(vec![post(1, 0, 0, 0), post(2, 0, 0, 0)]);
    s.next_post(1);
    assert_eq!(s.selected, Some(1));
    s.next_post(1);
    assert_eq!(s.selected, Some(2));
    assert!(!s.at_end_of_feed);
    s.next_post(1);
    assert_eq!(s.selected, Some(2));
    assert!(s.at_end_of_feed);
    s.previous_post(1);
    assert_eq!(s.selected, Some(1));
    assert!(!s.at_end_of_feed);
    s.previous_post(1);
    assert_eq!(s.selected, Some(1));
    let mut empty = PostsState::new();
    empty.next_post(0);
    assert_eq!(empty.selected, None);
}

#[test]
fn restore_selection_follows_the_post() {
    let mut s = feed_with(vec![post(1, 0, 0, 0), post(2, 0, 0, 0), post(3, 0, 0, 0)]);
    s.selected = Some(0);
    s.restore_selected_post(Some(3));
    assert_eq!(s.selected, Some(2));
    assert_eq!(s.selected_post_id(), Some(3));
    s.restore_selected_post(Some(99));
    assert_eq!(s.selected, Some(2));
    s.selected = None;
    s.restore_selected_post(None);
    assert_eq!(s.selected, Some(0));
    let mut e = PostsState::new();
    e.selected = Some(4);
    e.restore_selected_post(Some(1));
    assert_eq!(e.selected, None);
}

#[test]
fn approval_queue_navigation_and_removal() {
    let mut s = PostsState::new();
    s.pending_threads = vec![post(1, 0, 0, 0), post(2, 0, 0, 0), post(3, 0, 0, 0)];
    s.next_pending_thread();
    assert_eq!(s.pending_selected, Some(1));
    s.next_pending_thread();
    s.next_pending_thread();
    assert_eq!(s.pending_selected, Some(2));
    assert_eq!(s.selected_pending_thread_id(), Some(3));
    s.remove_pending_thread(3);
    assert_eq!(ids(&s.pending_threads), vec![1, 2]);
    assert_eq!(s.pending_selected, Some(1));
    s.previous_pending_thread();
    s.previous_pending_thread();
    assert_eq!(s.pending_selected, Some(0));
    s.remove_pending_thread(1);
    s.remove_pending_thread(2);
    assert_eq!(s.pending_selected, None);
    s.show_approval_queue = true;
    s.pending_threads_loaded = true;
    s.clear_approval_queue();
    assert!(!s.show_approval_queue);
    assert!(!s.pending_threads_loaded);
    let mut mode = InputMode::Typing;
    s.show_approval_queue = true;
    s.close_approval_queue(&mut mode);
    assert!(!s.show_approval_queue);
    assert_eq!(mode, InputMode::Navigation);
}

#[test]
fn voting_on_the_selected_post() {
    let mut s = feed_with(vec![post(1, 0, 3, 1)]);
    assert_eq!(s.vote_on_selected_post("up"), None);
    s.selected = Some(0);
    s.error = Some("old".to_string());
    assert_eq!(s.vote_on_selected_post("up"), Some((1, VoteRequest::Send(VoteDirection::Up))));
    assert_eq!((s.posts[0].upvotes, s.posts[0].downvotes), (4, 1));
    assert_eq!(s.posts[0].user_vote.as_deref(), Some("up"));
    assert_eq!(s.error, None);
    assert_eq!(s.vote_on_selected_post("up"), Some((1, VoteRequest::Ignored)));
    assert_eq!(s.vote_on_selected_post("down"), Some((1, VoteRequest::Send(VoteDirection::Down))));
    assert_eq!((s.posts[0].upvotes, s.posts[0].downvotes), (3, 2));
    assert_eq!(s.vote_on_selected_post("sideways"), Some((1, VoteRequest::InvalidDirection)));
}

#[test]
fn remove_post_from_feed_moves_selection_back() {
    let mut s = feed_with(vec![post(1, 0, 0, 0), post(2, 0, 0, 0)]);
    s.selected = Some(1);
    s.remove_post_from_feed(2);
    assert_eq!(ids(&s.posts), vec![1]);
    assert_eq!(s.selected, Some(0));
    s.remove_post_from_feed(42);
    assert_eq!(ids(&s.posts), vec![1]);
    s.remove_post_from_feed(1);
    assert_eq!(s.selected, None);
}

#[test]
fn new_post_is_capped_at_280_bytes() {
    let mut s = PostsState::new();
    s.new_post_content = "a".repeat(279);
    s.add_char_to_post('é');
    assert_eq!(s.new_post_content.len(), 281);
    s.add_char_to_post('b');
    assert_eq!(s.new_post_content.len(), 281);
    s.remove_char_from_post();
    assert_eq!(s.new_post_content.len(), 279);
}

#[test]
fn filter_modal_round_trip() {
    let mut s = PostsState::new();
    let mut mode = InputMode::Typing;
    s.current_filter = PostFilter::Multi { hashtags: vec!["rust".to_string()], users: vec![] };
    s.open_filter_modal(&mut mode);
    assert!(s.show_filter_modal);
    assert_eq!(mode, InputMode::Navigation);
    assert_eq!(s.filter_modal_state.checked_hashtags, vec!["rust".to_string()]);
    s.cancel_filter_modal(&mut mode);
    assert!(!s.show_filter_modal);
    assert!(s.filter_modal_state.checked_hashtags.is_empty());
    s.apply_filter(PostFilter::All, &mut mode);
    assert_eq!(s.current_filter, PostFilter::All);
    assert!(s.pending_load);
    s.current_filter = PostFilter::Multi { hashtags: vec![], users: vec!["x".to_string()] };
    s.load_filter_preference();
    assert_eq!(s.current_filter, PostFilter::All);
}

#[test]
fn toggling_filter_items() {
    let mut checked = vec!["a".to_string(), "b".to_string()];
    toggle_string(&mut checked, &"a".to_string());
    assert_eq!(checked, vec!["b".to_string()]);
    toggle_string(&mut checked, &"c".to_string());
    assert_eq!(checked, vec!["b".to_string(), "c".to_string()]);

    let mut m = FilterModalState::new();
    m.selected_tab = FilterTab::Users;
    m.user_list = vec!["alice".to_string(), "bob".to_string()];
    m.selected_index = 1;
    m.toggle_filter_item();
    assert_eq!(m.checked_users, vec!["bob".to_string()]);
    m.toggle_filter_item();
    assert!(m.checked_users.is_empty());
    m.selected_tab = FilterTab::All;
    m.toggle_filter_item();
    assert!(m.checked_users.is_empty() && m.checked_hashtags.is_empty());
}

#[test]
fn enter_in_the_filter_modal() {
    let mut m = FilterModalState::new();
    assert!(matches!(m.filter_on_enter(), FilterEnter::Apply(PostFilter::All)));
    m.selected_tab = FilterTab::Hashtags;
    m.hashtag_list = vec!["rust".to_string()];
    m.selected_index = 1;
    assert!(matches!(m.filter_on_enter(), FilterEnter::Nothing));
    m.selected_index = 0;
    assert!(matches!(m.filter_on_enter(), FilterEnter::Apply(PostFilter::All)));
    m.checked_hashtags = vec!["rust".to_string()];
    match m.filter_on_enter() {
        FilterEnter::Apply(PostFilter::Multi { hashtags, users }) => {
            assert_eq!(hashtags, vec!["rust".to_string()]);
            assert!(users.is_empty());
        }
        _ => panic!("expected a hashtag filter"),
    }
    m.show_add_hashtag_input = true;
    m.add_hashtag_input = "  go  ".to_string();
    match m.filter_on_enter() {
        FilterEnter::FollowHashtag(h) => assert_eq!(h, "go"),
        _ => panic!("expected a hashtag to follow"),
    }
    m.add_hashtag_input = "   ".to_string();
    assert!(matches!(m.filter_on_enter(), FilterEnter::Nothing));
    m.show_add_hashtag_input = false;
    m.selected_tab = FilterTab::Users;
    m.checked_users = vec!["bob".to_string()];
    match m.filter_on_enter() {
        FilterEnter::Apply(PostFilter::Multi { hashtags, users }) => {
            assert!(hashtags.is_empty());
            assert_eq!(users, vec!["bob".to_string()]);
        }
        _ => panic!("expected a user filter"),
    }
}

#[test]
fn feed_notices_expire_after_three_seconds() {
    let mut s = PostsState::new();
    s.show_message("✓ Post deleted successfully".to_string(), 10_000);
    let mut detail = Some(PostDetailState::open(1, None));
    detail.as_mut().unwrap().show_message("done".to_string(), 11_000);
    clear_expired_messages(&mut s, &mut detail, 13_000);
    assert!(s.message.is_some());
    clear_expired_messages(&mut s, &mut detail, 13_001);
    assert!(s.message.is_none());
    assert!(detail.as_ref().unwrap().message.is_some());
    clear_expired_messages(&mut s, &mut detail, 14_001);
    assert!(detail.as_ref().unwrap().message.is_none());
    let mut none: Option<PostDetailState> = None;
    clear_expired_messages(&mut s, &mut none, 0);
    assert!(none.is_none());

    s.selected = Some(5);
    s.return_to_feed_position(None);
    assert_eq!(s.selected, Some(5));
    s.return_to_feed_position(Some(2));
    assert_eq!(s.selected, Some(2));
}

#[test]
fn filter_modal_commands() {
    let mut m = FilterModalState::new();
    m.hashtag_list = vec!["a".to_string(), "b".to_string()];
    m.user_list = vec!["u".to_string()];
    m.apply_filter_command(F::Down);
    assert_eq!(m.selected_index, 0);
    m.apply_filter_command(F::NextTab);
    assert_eq!(m.selected_tab, FilterTab::Hashtags);
    m.apply_filter_command(F::Down);
    m.apply_filter_command(F::Down);
    m.apply_filter_command(F::Down);
    assert_eq!(m.selected_index, 2);
    m.apply_filter_command(F::OpenAddInput);
    assert!(m.show_add_hashtag_input);
    m.apply_filter_command(F::TypeHashtag('g'));
    m.apply_filter_command(F::TypeHashtag('o'));
    m.apply_filter_command(F::EraseHashtagChar);
    assert_eq!(m.add_hashtag_input, "g");
    m.apply_filter_command(F::CloseAddInput);
    assert!(!m.show_add_hashtag_input && m.add_hashtag_input.is_empty());
    m.apply_filter_command(F::Up);
    m.apply_filter_command(F::Toggle);
    assert_eq!(m.checked_hashtags, vec!["b".to_string()]);
    m.apply_filter_command(F::NextTab);
    assert_eq!((m.selected_tab, m.selected_index), (FilterTab::Users, 0));
    m.apply_filter_command(F::Down);
    assert_eq!(m.selected_index, 0);
    m.apply_filter_command(F::PreviousTab);
    m.apply_filter_command(F::PreviousTab);
    assert_eq!(m.selected_tab, FilterTab::All);
    m.apply_filter_command(F::Cancel);
    assert_eq!(m.selected_tab, FilterTab::All);
}

#[test]
fn approval_queue_needs_an_admin_and_a_community() {
    let mut p = PostsState::new();
    assert!(!p.open_approval_queue(false));
    assert_eq!(p.error.as_deref(), Some("Community admin role required to review pending threads."));
    assert!(!p.show_approval_queue);
    assert!(p.open_approval_queue(true));
    assert!(p.show_approval_queue);
    assert_eq!(p.begin_pending_load(None), None);
    assert_eq!(
        p.pending_threads_error.as_deref(),
        Some("Open a community before reviewing pending threads.")
    );
    assert_eq!(p.begin_pending_load(Some(4)), Some(4));
    assert!(p.pending_threads_loading);
    assert!(p.pending_threads_error.is_none());
}

#[test]
fn pending_threads_load_and_moderation() {
    let mut p = PostsState::new();
    p.apply_pending_threads(vec![]);
    assert!(p.pending_threads_loaded);
    assert_eq!(p.pending_selected, None);
    let mut a = post(1, 1, 0, 0);
    a.author_username = "ann".to_string();
    p.apply_pending_threads(vec![a, post(2, 2, 0, 0), post(3, 3, 0, 0)]);
    assert_eq!(p.pending_selected, Some(0));
    assert!(!p.pending_threads_loading);
    p.pending_selected = Some(2);
    p.apply_moderated(3, Moderation::Rejected, "bob", 77);
    assert_eq!(ids(&p.pending_threads), vec![1, 2]);
    assert_eq!(p.pending_selected, Some(1));
    assert_eq!(p.message, Some(("Rejected @bob's thread.".to_string(), 77)));
    p.apply_moderated(1, Moderation::Approved, "ann", 78);
    assert_eq!(ids(&p.pending_threads), vec![2]);
    assert_eq!(p.pending_selected, Some(0));
    assert_eq!(p.message, Some(("Approved @ann's thread.".to_string(), 78)));
    p.apply_pending_error("Network Error".to_string());
    assert_eq!(p.pending_threads_error.as_deref(), Some("Network Error"));
}

#[test]
fn filter_lists_load_or_empty() {
    let mut f = FilterModalState::new();
    f.apply_filter_lists(Some(vec!["rust".to_string()]), Some(vec!["bob".to_string()]));
    assert_eq!(f.hashtag_list, vec!["rust".to_string()]);
    assert_eq!(f.user_list, vec!["bob".to_string()]);
    f.apply_filter_lists(None, Some(vec![]));
    assert!(f.hashtag_list.is_empty());
    assert!(f.user_list.is_empty());
}
