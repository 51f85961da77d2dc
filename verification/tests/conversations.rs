use std::collections::HashSet;
use fido::conversations::{handle_dms_keys, input_mode_after_edit, DmCommand as C, DmSendError};
use fido::dms::{Conversation, DMSelection, DMsState, DirectMessage, DmConversationState, DmRequest};
use fido::keys::KeyCode;
use fido::social::UserInfo;
use fido::state::InputMode;

fn conv(id: u128, name: &str, unread: i32, state: DmConversationState, mine: bool) -> Conversation {
    Conversation {
        other_user_id: id,
        other_username: name.to_string(),
        last_message: "hi".to_string(),
        unread_count: unread,
        state,
        initiated_by_me: mine,
    }
}

fn friend(id: u128, name: &str) -> UserInfo {
    UserInfo { id, username: name.to_string(), follower_count: 0, following_count: 0 }
}

#[test]
fn dm_keys_in_navigation_and_typing() {
    let nav = InputMode::Navigation;
    assert_eq!(handle_dms_keys(KeyCode::Down, nav, DMSelection::NewConversation, 0), C::NavigateDown);
    assert_eq!(handle_dms_keys(KeyCode::Char('k'), nav, DMSelection::NewConversation, 0), C::NavigateUp);
    assert_eq!(handle_dms_keys(KeyCode::Char('n'), nav, DMSelection::Conversation(0), 1), C::OpenNewConversationModal);
    assert_eq!(handle_dms_keys(KeyCode::Enter, nav, DMSelection::NewConversation, 0), C::OpenNewConversationModal);
    assert_eq!(handle_dms_keys(KeyCode::Enter, nav, DMSelection::PendingDraft, 0), C::FocusDraft);
    assert_eq!(handle_dms_keys(KeyCode::Enter, nav, DMSelection::Conversation(0), 1), C::OpenConversation);
    assert_eq!(handle_dms_keys(KeyCode::Enter, nav, DMSelection::Conversation(3), 1), C::Nothing);
    assert_eq!(handle_dms_keys(KeyCode::Enter, nav, DMSelection::Request(0), 1), C::Nothing);
    assert_eq!(handle_dms_keys(KeyCode::Char('p'), nav, DMSelection::Request(0), 0), C::ViewProfile);
    assert_eq!(handle_dms_keys(KeyCode::Char('a'), nav, DMSelection::Request(0), 0), C::AcceptRequest);
    assert_eq!(handle_dms_keys(KeyCode::Char('X'), nav, DMSelection::Request(0), 0), C::DeclineRequest);
    assert_eq!(handle_dms_keys(KeyCode::Char('z'), nav, DMSelection::Request(0), 0), C::Nothing);
    assert_eq!(handle_dms_keys(KeyCode::Char('z'), nav, DMSelection::Conversation(0), 1), C::StartTyping);
    let typing = InputMode::Typing;
    assert_eq!(handle_dms_keys(KeyCode::Esc, typing, DMSelection::Conversation(0), 1), C::ClearDraft);
    assert_eq!(handle_dms_keys(KeyCode::Enter, typing, DMSelection::Conversation(0), 1), C::Send);
    assert_eq!(handle_dms_keys(KeyCode::Char('j'), typing, DMSelection::Conversation(0), 1), C::EditDraft);
    assert_eq!(input_mode_after_edit(KeyCode::Backspace, true), InputMode::Navigation);
    assert_eq!(input_mode_after_edit(KeyCode::Backspace, false), InputMode::Typing);
    assert_eq!(input_mode_after_edit(KeyCode::Char('a'), true), InputMode::Typing);
}

#[test]
fn loaded_conversations_drop_incoming_pending_ones() {
    let mut s = DMsState::new();
    s.apply_loaded_conversations(vec![
        conv(1, "a", 2, DmConversationState::Accepted, false),
        conv(2, "b", 1, DmConversationState::Pending, false),
        conv(3, "c", 0, DmConversationState::Pending, true),
    ]);
    let ids: Vec<u128> = s.conversations.iter().map(|c| c.other_user_id).collect();
    assert_eq!(ids, vec![1, 3]);
    assert_eq!(s.unread_counts.get(&1), Some(&2));
    assert_eq!(s.unread_counts.get(&2), None);
    assert_eq!(s.selection, DMSelection::Conversation(0));
    assert!(s.conversations_loaded);
    assert_eq!(s.conversation_to_load(), Some(1));

    let mut empty = DMsState::new();
    empty.apply_loaded_conversations(vec![conv(2, "b", 1, DmConversationState::Pending, false)]);
    assert!(empty.conversations.is_empty());
    assert_eq!(empty.selection, DMSelection::NewConversation);
    assert_eq!(empty.conversation_to_load(), None);
}

fn message(id: u128) -> DirectMessage {
    DirectMessage {
        id,
        from_user_id: 1,
        to_user_id: 2,
        from_username: "a".to_string(),
        to_username: "b".to_string(),
        content: "x".to_string(),
        created_at: 0,
        is_read: false,
    }
}

#[test]
fn opening_a_conversation_marks_it_read() {
    let mut s = DMsState::new();
    s.apply_loaded_conversations(vec![conv(1, "a", 2, DmConversationState::Accepted, false)]);
    s.messages = vec![message(1), message(2)];
    s.mark_conversation_as_read(1);
    assert_eq!(s.current_conversation_user, Some(1));
    assert_eq!(s.unread_counts.get(&1), Some(&0));
    assert_eq!(s.conversations[0].unread_count, 0);
    assert!(s.messages.iter().all(|m| m.is_read));
}

#[test]
fn recipients_and_send_errors() {
    let mut s = DMsState::new();
    assert_eq!(s.dm_recipient("  "), Err(DmSendError::Empty));
    assert_eq!(s.dm_recipient("hi"), Err(DmSendError::NewConversationSelected));
    s.selection = DMSelection::PendingDraft;
    assert_eq!(s.dm_recipient("hi"), Err(DmSendError::NoRecipient));
    s.selection = DMSelection::Request(0);
    assert_eq!(s.dm_recipient("hi"), Err(DmSendError::RequestSelected));
    s.selection = DMSelection::Conversation(0);
    assert_eq!(s.dm_recipient("hi"), Err(DmSendError::NoConversations));
    s.conversations = vec![conv(1, "alice", 0, DmConversationState::Accepted, true)];
    assert_eq!(s.dm_recipient("hi"), Ok("alice".to_string()));
    s.pending_conversation_username = Some("bob".to_string());
    assert_eq!(s.dm_recipient("hi"), Ok("bob".to_string()));
    assert_eq!(
        DmSendError::Empty.message(),
        "Validation Error: Cannot send empty message. Type something first!"
    );
    assert_eq!(DmSendError::RequestSelected.message(), "Accept the request first before sending a message.");
}

#[test]
fn failed_sends() {
    let mut s = DMsState::new();
    s.pending_conversation_username = Some("ghost".to_string());
    s.apply_send_failure("HTTP 404: User not found", "ghost".to_string(), "Not Found".to_string());
    assert!(s.show_dm_error_modal);
    assert_eq!(s.dm_error_message, "User '@ghost' not found. Add them as a friend first?");
    assert_eq!(s.failed_username, Some("ghost".to_string()));
    assert_eq!(s.pending_conversation_username, None);
    s.close_dm_error_modal();
    assert!(!s.show_dm_error_modal);
    assert_eq!(s.dm_error_message, "");
    s.apply_send_failure("timeout", "x".to_string(), "Network Error".to_string());
    assert_eq!(s.error, Some("Network Error".to_string()));
    s.clear_dm_error();
    assert_eq!(s.error, None);
}

#[test]
fn new_conversation_modal() {
    let mut s = DMsState::new();
    let mut mode = InputMode::Navigation;
    s.available_mutual_friends = vec![friend(1, "alice"), friend(2, "bob"), friend(3, "Alfred")];
    s.open_new_conversation_modal(&mut mode);
    assert!(s.show_new_conversation_modal);
    assert_eq!(mode, InputMode::Typing);
    assert!(!s.handle_new_conversation_modal_keys(KeyCode::Down));
    assert!(!s.handle_new_conversation_modal_keys(KeyCode::Down));
    assert!(!s.handle_new_conversation_modal_keys(KeyCode::Down));
    assert_eq!(s.new_conversation_selected_index, 2);
    assert!(!s.handle_new_conversation_modal_keys(KeyCode::Char('/')));
    assert!(s.new_conversation_search_mode);
    s.handle_new_conversation_modal_keys(KeyCode::Char('A'));
    s.handle_new_conversation_modal_keys(KeyCode::Char('l'));
    assert_eq!(s.new_conversation_selected_index, 0);
    assert_eq!(s.get_filtered_mutual_friends(), vec![0, 2]);
    assert!(!s.handle_new_conversation_modal_keys(KeyCode::Enter));
    s.handle_new_conversation_modal_keys(KeyCode::Esc);
    assert!(!s.new_conversation_search_mode);
    s.handle_new_conversation_modal_keys(KeyCode::Char('j'));
    assert!(s.handle_new_conversation_modal_keys(KeyCode::Enter));
    s.start_new_conversation(&mut mode);
    assert_eq!(s.pending_conversation_username, Some("Alfred".to_string()));
    assert_eq!(s.selection, DMSelection::PendingDraft);
    assert!(!s.show_new_conversation_modal);
    assert_eq!(mode, InputMode::Typing);

    let mut none = DMsState::new();
    none.new_conversation_search_query = "zzz".to_string();
    none.available_mutual_friends = vec![friend(1, "alice")];
    none.start_new_conversation(&mut mode);
    assert_eq!(none.pending_conversation_username, None);
    none.close_new_conversation_modal(&mut mode);
    assert_eq!(mode, InputMode::Navigation);
}

#[test]
fn notification_actor_selection() {
    let mut s = DMsState::new();
    s.pending_requests = vec![DmRequest { from_user_id: 5, from_username: "e".to_string() }];
    s.conversations = vec![conv(7, "g", 0, DmConversationState::Accepted, false)];
    s.messages = vec![message(1)];
    assert!(s.select_for_actor(5));
    assert_eq!(s.selection, DMSelection::Request(0));
    assert!(s.messages.is_empty());
    assert!(s.select_for_actor(7));
    assert_eq!(s.selection, DMSelection::Conversation(0));
    assert!(s.needs_message_load);
    assert!(!s.select_for_actor(9));
}

#[test]
fn dm_loading_messages_and_friends() {
    let mut s = DMsState::new();
    s.begin_load();
    assert!(s.loading);
    s.apply_pending_requests(vec![DmRequest { from_user_id: 5, from_username: "e".to_string() }]);
    assert_eq!(s.pending_requests.len(), 1);
    s.apply_load_error("Network Error".to_string());
    assert!(!s.loading);
    assert_eq!(s.error.as_deref(), Some("Network Error"));

    let mut seen: HashSet<u128> = HashSet::new();
    seen.insert(9);
    s.apply_loaded_messages(vec![message(1), message(2)], &mut seen);
    assert_eq!(s.messages.len(), 2);
    assert!(seen.contains(&1) && seen.contains(&2) && seen.contains(&9));
    assert_eq!(seen.len(), 3);

    s.apply_mutual_friends(Some(vec![friend(1, "ann")]));
    assert_eq!(s.available_mutual_friends.len(), 1);
    s.apply_mutual_friends(None);
    assert!(s.available_mutual_friends.is_empty());
}

#[test]
fn failed_sends_are_categorized() {
    let mut s = DMsState::new();
    s.apply_send_failure_from("HTTP 500 Internal Server Error", "bob".to_string(), false);
    assert_eq!(
        s.error,
        Some(fido::error::categorize_error("HTTP 500 Internal Server Error", false))
    );
    assert!(!s.show_dm_error_modal);
    let mut t = DMsState::new();
    t.apply_send_failure_from("404 User not found", "ghost".to_string(), false);
    assert!(t.show_dm_error_modal);
    assert_eq!(t.dm_error_message, "User '@ghost' not found. Add them as a friend first?");
    assert_eq!(t.failed_username.as_deref(), Some("ghost"));
    assert!(t.error.is_none());
}
