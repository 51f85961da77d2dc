use fido::keys::KeyCode;
use fido::post::Post;
use fido::social::{
    close_user_profile_view, bio_update_error, closes_profile_view, filter_users, next_relationship_after_toggle,
    profile_load_error, BioAction, FriendsState, HashtagAction, ProfileState,
    RelationshipStatus as R, UserInfo, UserProfile, UserProfileViewState, UserSearchAction,
    UserSearchResult, UserSearchState,
};
use fido::state::{HashtagsState, InputMode, SocialTab};

fn user(id: u128, name: &str) -> UserInfo {
    UserInfo { id, username: name.to_string(), follower_count: 0, following_count: 0 }
}

#[test]
fn user_info_carries_id() {
    let id = 0x1234_5678_9abc_def0_u128;
    let info = UserInfo { id, username: "alice".to_string(), follower_count: 1, following_count: 2 };
    assert_eq!(info.id, id);
}

#[test]
fn follow_toggle_transitions() {
    assert_eq!(next_relationship_after_toggle(&R::NoRelationship), Some((true, R::Following)));
    assert_eq!(next_relationship_after_toggle(&R::FollowsYou), Some((true, R::MutualFriends)));
    assert_eq!(next_relationship_after_toggle(&R::Following), Some((false, R::NoRelationship)));
    assert_eq!(next_relationship_after_toggle(&R::MutualFriends), Some((false, R::FollowsYou)));
    assert_eq!(next_relationship_after_toggle(&R::Self_), None);
}

#[test]
fn toggling_twice_returns_to_the_start() {
    for rel in [R::NoRelationship, R::FollowsYou, R::Following, R::MutualFriends] {
        let (f1, r1) = next_relationship_after_toggle(&rel).unwrap();
        let (f2, r2) = next_relationship_after_toggle(&r1).unwrap();
        assert_eq!(r2, rel);
        assert_ne!(f1, f2);
    }
}

#[test]
fn filter_users_is_case_insensitive_substring() {
    let users = vec![user(1, "Alice"), user(2, "bob"), user(3, "MALICE"), user(4, "carol")];
    assert_eq!(filter_users(&users, "ali"), vec![0, 2]);
    assert_eq!(filter_users(&users, ""), vec![0, 1, 2, 3]);
    assert_eq!(filter_users(&users, "zzz"), Vec::<usize>::new());
}

fn friends() -> FriendsState {
    let mut s = FriendsState::new();
    s.following = vec![user(1, "alice"), user(2, "bob"), user(3, "alfred")];
    s.followers = vec![user(4, "dave")];
    s.show_friends_modal = true;
    s
}

#[test]
fn friends_modal_navigation_and_search() {
    let mut s = friends();
    assert_eq!(s.selected_tab, SocialTab::Following);
    s.handle_friends_modal_keys(KeyCode::Down);
    s.handle_friends_modal_keys(KeyCode::Char('j'));
    s.handle_friends_modal_keys(KeyCode::Down);
    assert_eq!(s.selected_index, 2);
    s.handle_friends_modal_keys(KeyCode::Up);
    assert_eq!(s.selected_index, 1);
    s.handle_friends_modal_keys(KeyCode::Tab);
    assert_eq!(s.selected_tab, SocialTab::Followers);
    assert_eq!(s.selected_index, 0);
    s.handle_friends_modal_keys(KeyCode::BackTab);
    s.handle_friends_modal_keys(KeyCode::Left);
    assert_eq!(s.selected_tab, SocialTab::MutualFriends);
    s.handle_friends_modal_keys(KeyCode::Char('l'));
    assert_eq!(s.selected_tab, SocialTab::Following);

    s.handle_friends_modal_keys(KeyCode::Char('/'));
    assert!(s.search_mode);
    s.handle_friends_modal_keys(KeyCode::Char('a'));
    s.handle_friends_modal_keys(KeyCode::Char('l'));
    assert_eq!(s.search_query, "al");
    assert_eq!(s.get_filtered_social_list(), vec![0, 2]);
    s.handle_friends_modal_keys(KeyCode::Backspace);
    assert_eq!(s.search_query, "a");
    s.handle_friends_modal_keys(KeyCode::Esc);
    assert!(!s.search_mode);
    assert_eq!(s.search_query, "");
}

#[test]
fn closing_friends_modal_resets_search() {
    let mut s = friends();
    s.search_mode = true;
    s.search_query = "x".to_string();
    s.close_friends_modal();
    assert!(!s.show_friends_modal);
    assert!(!s.search_mode);
    assert_eq!(s.search_query, "");
}

#[test]
fn user_search_keys() {
    let mut s = UserSearchState::new();
    let mut mode = InputMode::Navigation;
    s.open_user_search_modal(&mut mode);
    assert!(s.show_modal);
    assert_eq!(mode, InputMode::Typing);
    assert_eq!(s.handle_user_search_modal_keys(KeyCode::Char('a')), UserSearchAction::Search);
    assert_eq!(s.query_to_search(), None);
    assert_eq!(s.handle_user_search_modal_keys(KeyCode::Char('l')), UserSearchAction::Search);
    assert_eq!(s.query_to_search(), Some("al".to_string()));
    assert!(s.loading);
    s.apply_search_results(vec![
        UserSearchResult { id: 1, username: "alice".to_string() },
        UserSearchResult { id: 2, username: "alan".to_string() },
        UserSearchResult { id: 3, username: "alma".to_string() },
    ]);
    assert!(!s.loading);
    assert_eq!(s.handle_user_search_modal_keys(KeyCode::Down), UserSearchAction::Nothing);
    assert_eq!(s.selected_index, 1);
    s.handle_user_search_modal_keys(KeyCode::Char('j'));
    s.handle_user_search_modal_keys(KeyCode::Char('j'));
    assert_eq!(s.selected_index, 2);
    s.handle_user_search_modal_keys(KeyCode::Char('k'));
    assert_eq!(s.selected_index, 1);
    assert_eq!(s.handle_user_search_modal_keys(KeyCode::Enter), UserSearchAction::ViewProfile);
    assert_eq!(s.handle_user_search_modal_keys(KeyCode::Char('d')), UserSearchAction::StartDm);
    assert_eq!(s.handle_user_search_modal_keys(KeyCode::Backspace), UserSearchAction::Search);
    assert_eq!(s.search_query, "a");
    s.close_user_search_modal(&mut mode);
    assert!(!s.show_modal);
    assert_eq!(mode, InputMode::Navigation);
    assert!(s.search_results.is_empty());
}

fn profile_view(rel: R, followers: usize) -> UserProfileViewState {
    UserProfileViewState {
        user_id: 7,
        username: "bob".to_string(),
        bio: None,
        join_date: "2024-01-01".to_string(),
        follower_count: followers,
        following_count: 0,
        post_count: 0,
        relationship: rel,
        error: None,
    }
}

#[test]
fn profile_follow_toggle() {
    let mut v = profile_view(R::NoRelationship, 3);
    let (id, follow, rel) = v.follow_toggle_request().unwrap();
    assert_eq!((id, follow, rel), (7, true, R::Following));
    v.apply_follow_success(follow, rel);
    assert_eq!(v.follower_count, 4);
    assert_eq!(v.relationship, R::Following);
    let (_, follow, rel) = v.follow_toggle_request().unwrap();
    v.apply_follow_success(follow, rel);
    assert_eq!(v.follower_count, 3);
    assert_eq!(v.relationship, R::NoRelationship);

    let mut zero = profile_view(R::Following, 0);
    zero.apply_follow_success(false, R::NoRelationship);
    assert_eq!(zero.follower_count, 0);

    assert_eq!(profile_view(R::Self_, 0).follow_toggle_request(), None);
    let mut err = profile_view(R::Following, 0);
    err.error = Some("boom".to_string());
    assert_eq!(err.follow_toggle_request(), None);
    assert!(closes_profile_view(KeyCode::Esc));
    assert!(closes_profile_view(KeyCode::Char('q')));
    assert!(!closes_profile_view(KeyCode::Char('x')));
}

fn hashtags() -> HashtagsState {
    HashtagsState {
        hashtags: vec!["rust".to_string(), "verus".to_string()],
        show_hashtags_modal: true,
        show_add_hashtag_input: false,
        add_hashtag_name: String::new(),
        selected_hashtag: 0,
        error: None,
        loading: false,
        show_unfollow_confirmation: false,
        hashtag_to_unfollow: None,
    }
}

#[test]
fn hashtags_modal_flow() {
    assert_eq!(HashtagsState::hashtag_to_follow("#rust"), "rust");
    assert_eq!(HashtagsState::hashtag_to_follow("rust"), "rust");
    assert_eq!(HashtagsState::follow_failed_message("rust"), "Failed to follow #rust");

    let mut h = hashtags();
    h.handle_hashtags_modal_keys(KeyCode::Char('x'));
    assert!(h.show_unfollow_confirmation);
    assert_eq!(h.hashtag_to_unfollow, Some("rust".to_string()));
    assert_eq!(h.handle_hashtags_modal_keys(KeyCode::Char('y')), HashtagAction::Unfollow);
    assert_eq!(h.handle_hashtags_modal_keys(KeyCode::Char('n')), HashtagAction::Nothing);
    assert!(!h.show_unfollow_confirmation);
    assert_eq!(h.hashtag_to_unfollow, None);

    h.handle_hashtags_modal_keys(KeyCode::Down);
    h.handle_hashtags_modal_keys(KeyCode::Down);
    h.handle_hashtags_modal_keys(KeyCode::Down);
    assert_eq!(h.selected_hashtag, 2);
    h.handle_hashtags_modal_keys(KeyCode::Enter);
    assert!(h.show_add_hashtag_input);
    h.handle_hashtags_modal_keys(KeyCode::Char('#'));
    h.handle_hashtags_modal_keys(KeyCode::Char('g'));
    h.handle_hashtags_modal_keys(KeyCode::Char('o'));
    h.handle_hashtags_modal_keys(KeyCode::Backspace);
    assert_eq!(h.add_hashtag_name, "#g");
    assert_eq!(h.handle_hashtags_modal_keys(KeyCode::Enter), HashtagAction::Follow);
    h.handle_hashtags_modal_keys(KeyCode::Esc);
    assert!(!h.show_add_hashtag_input);
    assert_eq!(h.add_hashtag_name, "");
    h.close_hashtags_modal();
    assert!(!h.show_hashtags_modal);
}

fn post(id: u128, author: u128) -> Post {
    Post {
        id,
        author_id: author,
        author_username: "u".to_string(),
        content: "c".to_string(),
        community_id: 1,
        parent_post_id: None,
        upvotes: 0,
        downvotes: 0,
        user_vote: None,
        created_at: 0,
        hashtags: vec![],
        approved: true,
        reply_count: 0,
    }
}

#[test]
fn profile_posts_and_bio_editor() {
    let mut p = ProfileState::new();
    let mut mode = InputMode::Navigation;
    p.open_edit_bio_modal(&mut mode);
    assert!(!p.show_edit_bio_modal);
    assert_eq!(mode, InputMode::Navigation);

    p.apply_user_posts(vec![post(1, 5), post(2, 6), post(3, 5)], 5);
    assert_eq!(p.user_posts.iter().map(|x| x.id).collect::<Vec<_>>(), vec![1, 3]);
    assert_eq!(p.selected, Some(0));
    p.next_user_post();
    p.next_user_post();
    assert_eq!(p.selected, Some(1));
    p.previous_user_post();
    p.previous_user_post();
    assert_eq!(p.selected, Some(0));
    p.apply_user_posts(vec![post(2, 6)], 5);
    assert_eq!(p.selected, None);

    p.profile = Some(UserProfile {
        id: 5,
        username: "me".to_string(),
        bio: Some("héllo".to_string()),
        join_date: "2024".to_string(),
        follower_count: 0,
        following_count: 0,
    });
    p.open_edit_bio_modal(&mut mode);
    assert!(p.show_edit_bio_modal);
    assert_eq!(mode, InputMode::Typing);
    assert_eq!(p.edit_bio_cursor_position, 5);
    p.handle_edit_bio_modal_keys(KeyCode::Home);
    p.handle_edit_bio_modal_keys(KeyCode::Char('>'));
    assert_eq!(p.edit_bio_content, ">héllo");
    p.handle_edit_bio_modal_keys(KeyCode::Right);
    p.handle_edit_bio_modal_keys(KeyCode::Right);
    p.handle_edit_bio_modal_keys(KeyCode::Backspace);
    assert_eq!(p.edit_bio_content, ">hllo");
    assert_eq!(p.edit_bio_cursor_position, 2);
    p.handle_edit_bio_modal_keys(KeyCode::End);
    assert_eq!(p.edit_bio_cursor_position, 5);
    assert_eq!(p.handle_edit_bio_modal_keys(KeyCode::Enter), BioAction::Save);
    p.close_edit_bio_modal(&mut mode);
    assert!(!p.show_edit_bio_modal);
    assert_eq!(p.edit_bio_content, "");
    assert_eq!(mode, InputMode::Navigation);
}

#[test]
fn bio_is_capped_at_160_characters() {
    let mut p = ProfileState::new();
    p.edit_bio_content = "x".repeat(160);
    p.edit_bio_cursor_position = 160;
    p.add_char_to_bio('y');
    assert_eq!(p.edit_bio_content.chars().count(), 160);
    assert_eq!(p.edit_bio_cursor_position, 160);
}

#[test]
fn bio_and_profile_error_messages() {
    assert_eq!(bio_update_error("HTTP 403"), "Authorization Error: You can only edit your own profile");
    assert_eq!(bio_update_error("400 bad"), "Validation Error: 400 bad");
    assert_eq!(
        bio_update_error("connection refused"),
        "Network Error: Connection failed - check your network and try again"
    );
    assert_eq!(bio_update_error("oops"), "Failed to update bio: oops");
    assert_eq!(profile_load_error("Network Error"), "Network Error (Switch tabs to retry)");
}

#[test]
fn hashtag_loading_and_following() {
    let mut h = hashtags();
    h.begin_load();
    assert!(h.loading);
    h.finish_load(Err("500".to_string()));
    assert_eq!(h.error.as_deref(), Some("Failed to load hashtags: 500"));
    assert!(!h.loading);
    h.finish_load(Ok(vec!["go".to_string()]));
    assert_eq!(h.hashtags, vec!["go".to_string()]);
    h.show_add_hashtag_input = true;
    h.add_hashtag_name = "zig".to_string();
    h.apply_followed();
    assert!(!h.show_add_hashtag_input);
    assert!(h.add_hashtag_name.is_empty());
}

#[test]
fn profile_loading_and_bio_failures() {
    let mut p = ProfileState::new();
    p.error = Some("old".to_string());
    p.begin_request(true);
    assert!(p.loading && p.error.is_none());
    p.apply_profile(UserProfile {
        id: 1,
        username: "me".to_string(),
        bio: None,
        join_date: "2024".to_string(),
        follower_count: 0,
        following_count: 0,
    });
    assert!(p.profile.is_some());
    p.apply_load_failure("Network Error");
    assert_eq!(p.error.as_deref(), Some("Network Error (Switch tabs to retry)"));
    p.end_load();
    assert!(!p.loading);
    p.apply_bio_failure("HTTP 403");
    assert_eq!(p.error.as_deref(), Some("Authorization Error: You can only edit your own profile"));
}

#[test]
fn closing_a_profile_opened_from_the_social_modal_reopens_it() {
    let mut view = Some(UserProfileViewState::failed(3, "c".to_string(), "x"));
    let mut f = friends();
    f.show_friends_modal = false;
    f.return_to_modal_after_profile = true;
    close_user_profile_view(&mut view, &mut f);
    assert!(view.is_none());
    assert!(f.show_friends_modal);
    assert!(!f.return_to_modal_after_profile);
    let mut view2 = Some(UserProfileViewState::failed(3, "c".to_string(), "x"));
    close_user_profile_view(&mut view2, &mut f);
    assert!(view2.is_none());
    assert!(f.show_friends_modal);
}
