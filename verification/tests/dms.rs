use fido::dms::{Conversation, DMSelection, DMsState, DmConversationState, DmRequest};

fn conversation(id: u128, name: &str) -> Conversation {
    Conversation {
        other_user_id: id,
        other_username: name.to_string(),
        last_message: "Hello".to_string(),
        unread_count: 0,
        state: DmConversationState::Accepted,
        initiated_by_me: false,
    }
}

#[test]
fn test_dm_selection_starts_on_new_conversation() {
    let dms = DMsState::new();
    assert!(
        dms.selection.is_new_conversation(),
        "DM selection should start on NewConversation"
    );
}

#[test]
fn test_dm_navigation_down_from_new_conversation() {
    let mut dms = DMsState::new();
    dms.conversations = vec![conversation(1, "user1")];
    assert!(dms.selection.is_new_conversation());
    dms.navigate_down();
    assert_eq!(
        dms.selection.conversation_index(),
        Some(0),
        "Should navigate to first conversation"
    );
}

#[test]
fn test_dm_navigation_up_from_conversation() {
    let mut dms = DMsState::new();
    dms.conversations = vec![conversation(1, "user1")];
    dms.selection = DMSelection::Conversation(0);
    dms.navigate_up();
    assert!(
        dms.selection.is_new_conversation(),
        "Should navigate back to NewConversation"
    );
}

#[test]
fn test_dm_navigation_with_pending_draft() {
    let mut dms = DMsState::new();
    dms.pending_conversation_username = Some("newuser".to_string());
    dms.selection = DMSelection::NewConversation;
    dms.navigate_down();
    assert!(dms.selection.is_pending_draft(), "Should navigate to pending draft");
    dms.navigate_up();
    assert!(
        dms.selection.is_new_conversation(),
        "Should navigate back to NewConversation"
    );
}

#[test]
fn test_dm_selection_stays_on_new_conversation_when_no_conversations() {
    let mut dms = DMsState::new();
    assert!(dms.conversations.is_empty());
    dms.navigate_down();
    assert!(
        dms.selection.is_new_conversation(),
        "Should stay on NewConversation when no conversations exist"
    );
}

#[test]
fn dm_navigation_walks_draft_requests_then_conversations_and_back() {
    let mut dms = DMsState::new();
    dms.pending_conversation_username = Some("draft".to_string());
    dms.pending_requests = vec![
        DmRequest { from_user_id: 7, from_username: "r1".to_string() },
        DmRequest { from_user_id: 8, from_username: "r2".to_string() },
    ];
    dms.conversations = vec![conversation(1, "a"), conversation(2, "b")];
    let down = [
        DMSelection::PendingDraft,
        DMSelection::Request(0),
        DMSelection::Request(1),
        DMSelection::Conversation(0),
        DMSelection::Conversation(1),
        DMSelection::Conversation(1),
    ];
    for expected in down.iter() {
        dms.navigate_down();
        assert_eq!(&dms.selection, expected);
    }
    let up = [
        DMSelection::Conversation(0),
        DMSelection::Request(1),
        DMSelection::Request(0),
        DMSelection::PendingDraft,
        DMSelection::NewConversation,
        DMSelection::NewConversation,
    ];
    for expected in up.iter() {
        dms.navigate_up();
        assert_eq!(&dms.selection, expected);
    }
}

#[test]
fn restore_request_selection_clamps_to_last_request() {
    let mut dms = DMsState::new();
    dms.selection = DMSelection::Conversation(0);
    dms.restore_request_selection(3);
    assert_eq!(dms.selection, DMSelection::Conversation(0));
    dms.pending_requests = vec![DmRequest { from_user_id: 7, from_username: "r1".to_string() }];
    dms.restore_request_selection(3);
    assert_eq!(dms.selection, DMSelection::Request(0));
}
