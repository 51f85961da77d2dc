use fido::detail::{reply_thread_to_reload, PostDetailState, PostRef};
use fido::feed::PostsState;
use fido::post::{Post, VoteDirection, VoteRequest};
use fido::state::InputMode;
use fido::route::{handle_post_detail_keys, DetailCommand};
use fido::thread_view::{post_deleted_message, reply_deleted_message, DetailOutcome};
use fido::keys::{KeyCode, KeyEvent};

fn post(id: u128, author: u128, parent: Option<u128>) -> Post {
    Post {
        id,
        author_id: author,
        author_username: format!("user{}", author),
        content: format!("post {}", id),
        community_id: 1,
        parent_post_id: parent,
        upvotes: 1,
        downvotes: 0,
        user_vote: None,
        created_at: 0,
        hashtags: vec![],
        approved: true,
        reply_count: 0,
    }
}

// Main post 100; replies 1 and 3 answer it, 2 answers 1, 4 answers 2.
// The full-post modal is closed and no reply is selected.
fn detail() -> PostDetailState {
    let mut d = PostDetailState::open(100, Some(3));
    d.apply_loaded_post(post(100, 9, None));
    d.apply_loaded_replies(vec![
        post(1, 10, Some(100)),
        post(2, 11, Some(1)),
        post(3, 12, Some(100)),
        post(4, 13, Some(2)),
    ]);
    d.show_full_post_modal = false;
    d.full_post_modal_id = None;
    d.modal_selected = None;
    d.modal_expanded_posts.clear();
    d.reply_selected = None;
    d
}

#[test]
fn opening_and_loading_the_detail_view() {
    let mut d = PostDetailState::open(100, Some(2));
    assert!(d.loading && d.show_full_post_modal);
    assert_eq!(d.full_post_modal_id, Some(100));
    assert_eq!(d.modal_selected, Some(0));
    assert_eq!(d.modal_expanded_posts.get(&100), Some(&true));
    d.apply_loaded_post(post(100, 9, None));
    d.apply_loaded_replies(vec![post(1, 10, Some(100)), post(3, 12, Some(100))]);
    assert!(!d.loading);
    assert_eq!(d.reply_selected, Some(0));
    assert_eq!(d.modal_max_index(), 2);
    d.begin_reload();
    assert!(d.loading && d.error.is_none());
    d.apply_load_error("Network Error".to_string());
    assert!(!d.loading);
    assert_eq!(d.error.as_deref(), Some("Network Error"));
    assert_eq!(d.post.as_ref().map(|p| p.id), Some(100));
    d.apply_loaded_replies(vec![]);
    assert_eq!(d.reply_selected, None);
    d.show_delete_confirmation = true;
    d.apply_delete_failure("Error: gone".to_string());
    assert!(!d.show_delete_confirmation);
    d.show_message("✓ Reply deleted successfully".to_string(), 1_000);
    assert_eq!(d.message, Some(("✓ Reply deleted successfully".to_string(), 1_000)));
}

#[test]
fn direct_reply_navigation() {
    let mut d = detail();
    assert_eq!(d.previous_feed_position, Some(3));
    d.next_reply();
    assert_eq!(d.reply_selected, Some(0));
    d.next_reply();
    d.next_reply();
    assert_eq!(d.reply_selected, Some(1));
    assert_eq!(d.selected_reply_target().map(|t| t.post_id), Some(3));
    d.previous_reply();
    d.previous_reply();
    assert_eq!(d.reply_selected, None);
    assert_eq!(d.selected_reply_target().map(|t| t.post_id), None);
    let main = d.main_reply_target().unwrap();
    assert_eq!((main.post_id, main.author.as_str(), main.content.as_str()), (100, "user9", "post 100"));
}

#[test]
fn full_post_modal_expansion_and_selection() {
    let mut d = detail();
    d.open_full_post_modal();
    assert!(d.show_full_post_modal);
    assert_eq!(d.full_post_modal_id, Some(100));
    assert_eq!(d.modal_selected, Some(0));
    assert_eq!(d.modal_max_index(), 0);
    assert_eq!(d.modal_target(), Some(100));
    d.modal_toggle_expansion();
    assert_eq!(d.modal_max_index(), 2);
    d.modal_next_reply();
    assert_eq!(d.modal_target(), Some(1));
    d.modal_toggle_expansion();
    assert_eq!(d.modal_max_index(), 3);
    d.modal_next_reply();
    assert_eq!(d.modal_target(), Some(2));
    d.modal_next_reply();
    d.modal_next_reply();
    assert_eq!(d.modal_selected, Some(3));
    assert_eq!(d.modal_target(), Some(3));
    d.modal_previous_reply();
    d.modal_previous_reply();
    d.modal_previous_reply();
    d.modal_previous_reply();
    assert_eq!(d.modal_selected, Some(0));

    d.select_reply_in_modal(4);
    assert_eq!(d.modal_target(), Some(4));
    assert_eq!(d.modal_selected, Some(3));
    assert_eq!(d.modal_reply_target().map(|t| t.post_id), Some(100));
    d.select_reply_in_modal(100);
    assert_eq!(d.modal_selected, Some(0));
}

#[test]
fn modal_on_a_selected_reply() {
    let mut d = detail();
    d.next_reply();
    d.open_full_post_modal();
    assert_eq!(d.full_post_modal_id, Some(1));
    assert_eq!(d.modal_reply_target().map(|t| t.post_id), Some(1));
    d.modal_toggle_expansion();
    assert_eq!(d.modal_max_index(), 1);
}

#[test]
fn delete_targets_and_confirmation() {
    let mut d = detail();
    assert_eq!(d.get_deletable_post(), Some(PostRef::Main));
    let t = d.delete_target().unwrap();
    assert_eq!((t.post_id, t.is_reply, t.main_post_id), (100, false, Some(100)));
    d.show_delete_confirmation(Some(42));
    assert!(!d.show_delete_confirmation);
    d.show_delete_confirmation(Some(9));
    assert!(d.show_delete_confirmation);
    d.cancel_delete_confirmation();
    assert!(!d.show_delete_confirmation);

    d.next_reply();
    d.next_reply();
    assert_eq!(d.get_deletable_post(), Some(PostRef::Reply(2)));
    let t = d.delete_target().unwrap();
    assert_eq!((t.post_id, t.is_reply, t.main_post_id), (3, true, Some(100)));
    d.show_delete_confirmation(Some(12));
    assert!(d.show_delete_confirmation);
    assert_eq!(reply_deleted_message(), "✓ Reply deleted successfully");
    assert_eq!(post_deleted_message(), "✓ Post deleted successfully");
}

#[test]
fn votes_are_applied_and_reverted() {
    let mut d = detail();
    let a = d.vote("up").unwrap();
    assert_eq!(a.post_id, 100);
    assert!(a.on_main);
    assert_eq!(a.request, VoteRequest::Send(VoteDirection::Up));
    assert_eq!(d.post.as_ref().unwrap().upvotes, 2);
    d.revert_vote(&a);
    assert_eq!(d.post.as_ref().unwrap().upvotes, 1);
    assert_eq!(d.post.as_ref().unwrap().user_vote, None);

    d.next_reply();
    let b = d.vote("down").unwrap();
    assert_eq!((b.post_id, b.on_main, b.on_reply), (1, false, Some(0)));
    assert_eq!((d.replies[0].upvotes, d.replies[0].downvotes), (1, 1));
    d.revert_vote(&b);
    assert_eq!((d.replies[0].upvotes, d.replies[0].downvotes), (1, 0));

    let mut empty = PostDetailState::open(1, None);
    assert!(empty.vote("up").is_none());
}

#[test]
fn reply_box_editing() {
    let mut d = detail();
    d.show_reply_composer = true;
    d.add_char_to_reply('h');
    d.add_char_to_reply('i');
    d.remove_char_from_reply();
    assert_eq!(d.reply_content, "h");
    d.reply_content = "x".repeat(280);
    d.add_char_to_reply('y');
    assert_eq!(d.reply_content.len(), 280);
    let mut mode = InputMode::Typing;
    d.close_reply_composer(&mut mode);
    assert!(!d.show_reply_composer);
    assert_eq!(d.reply_content, "");
    assert_eq!(mode, InputMode::Navigation);
}

#[test]
fn failed_vote_is_rolled_back_with_the_categorized_error() {
    let mut d = detail();
    let a = d.vote("up").unwrap();
    assert_eq!(d.post.as_ref().unwrap().upvotes, 2);
    d.apply_vote_failure(&a, "HTTP 500 Internal Server Error", false);
    assert_eq!(d.post.as_ref().unwrap().upvotes, 1);
    assert_eq!(d.post.as_ref().unwrap().user_vote, None);
    assert_eq!(
        d.error,
        Some(fido::error::categorize_error("HTTP 500 Internal Server Error", false))
    );
}

#[test]
fn posting_a_reply_counts_it_and_reopens_the_thread_on_it() {
    let mut feed = PostsState::new();
    feed.posts = vec![post(5, 1, None), post(100, 9, None), post(100, 9, None)];
    feed.count_new_reply(100);
    assert_eq!(feed.posts[0].reply_count, 0);
    assert_eq!(feed.posts[1].reply_count, 1);
    assert_eq!(feed.posts[2].reply_count, 0);
    feed.count_new_reply(77);
    assert_eq!(feed.posts[1].reply_count, 1);

    let d = detail();
    assert_eq!(reply_thread_to_reload(&Some(d), 2), 100);
    assert_eq!(reply_thread_to_reload(&None, 2), 2);

    let mut d = detail();
    d.show_posted_reply(100, 4);
    assert!(d.show_full_post_modal);
    assert_eq!(d.full_post_modal_id, Some(100));
    assert_eq!(d.modal_target(), Some(4));
    assert_eq!(d.modal_selected, Some(3));
}

#[test]
fn thread_view_keys_change_the_view() {
    let mut d = detail();
    let mut mode = InputMode::Navigation;
    let cmd = handle_post_detail_keys(KeyEvent::press(KeyCode::Down), false, false, false);
    assert_eq!(cmd, DetailCommand::NextReply);
    assert_eq!(d.apply_detail_command(cmd, None, &mut mode), DetailOutcome::Done);
    assert_eq!(d.reply_selected, Some(0));

    let cmd = handle_post_detail_keys(KeyEvent::press(KeyCode::Enter), false, false, false);
    d.apply_detail_command(cmd, None, &mut mode);
    assert!(d.show_full_post_modal);
    assert_eq!(d.full_post_modal_id, Some(1));

    let cmd = handle_post_detail_keys(KeyEvent::press(KeyCode::Esc), true, false, false);
    assert_eq!(cmd, DetailCommand::CloseFullPostModal);
    assert_eq!(d.apply_detail_command(cmd, None, &mut mode), DetailOutcome::ToCaller(cmd));
    assert!(d.show_full_post_modal);

    let mut d = detail();
    d.show_reply_composer = true;
    mode = InputMode::Typing;
    let cmd = handle_post_detail_keys(KeyEvent::press(KeyCode::Char('h')), false, true, false);
    d.apply_detail_command(cmd, None, &mut mode);
    assert_eq!(d.reply_content, "h");
    let cmd = handle_post_detail_keys(KeyEvent::press(KeyCode::Esc), false, true, false);
    d.apply_detail_command(cmd, None, &mut mode);
    assert!(!d.show_reply_composer);
    assert_eq!(d.reply_content, "");
    assert_eq!(mode, InputMode::Navigation);

    let cmd = handle_post_detail_keys(KeyEvent::press(KeyCode::Char('x')), false, false, false);
    d.apply_detail_command(cmd, Some(9), &mut mode);
    assert!(d.show_delete_confirmation);
    let cmd = handle_post_detail_keys(KeyEvent::press(KeyCode::Char('n')), false, false, true);
    d.apply_detail_command(cmd, Some(9), &mut mode);
    assert!(!d.show_delete_confirmation);
}
