use std::collections::HashSet;

use fido::chat::{Channel, ChannelMessageEvent, ChatSendError, ChatState, Message};
use fido::dms::{DMSelection, DMsState, DirectMessage, DmConversationState};
use fido::feed::PostsState;
use fido::live::{
    apply_realtime_envelope, community_id_from_parse, notification_community_id, notification_target,
    Event, LiveContext, Notification, NotificationTarget, NotificationUnreadCount, NotificationsState,
    RealtimeState,
};
use fido::post::Post;
use fido::realtime::{RealtimeConnectionStatus, RealtimeStatusUpdate};
use fido::state::Tab;

fn note(id: u128, subject_type: &str, subject_id: &str, read: bool) -> Notification {
    Notification {
        id,
        actor_id: 77,
        subject_type: subject_type.to_string(),
        subject_id: subject_id.to_string(),
        read,
    }
}

#[test]
fn notifications_are_counted_once_per_subject() {
    let mut rt = RealtimeState::new();
    rt.apply_realtime_notification(note(1, "community", "c1", false));
    rt.apply_realtime_notification(note(2, "community", "c1", false));
    rt.apply_realtime_notification(note(3, "dm_conversation", "d1", false));
    assert_eq!(rt.unread_notifications.len(), 2);
    assert_eq!(rt.unread_notifications[0].count, 2);
    assert_eq!(rt.total_unread_notifications(), 3);
    rt.apply_realtime_notification(note(2, "community", "c1", false));
    rt.apply_realtime_notification(note(4, "community", "c1", true));
    assert_eq!(rt.total_unread_notifications(), 3);
    assert!(!rt.seen_notifications.contains(&4));
}

#[test]
fn realtime_status_and_polling_fallback() {
    let mut rt = RealtimeState::new();
    assert!(!rt.is_polling_fallback_active());
    rt.apply_realtime_status(RealtimeStatusUpdate::new(
        RealtimeConnectionStatus::Reconnecting,
        Some("lost".to_string()),
    ));
    assert_eq!(rt.status, RealtimeConnectionStatus::Reconnecting);
    assert_eq!(rt.last_error.as_deref(), Some("lost"));
    assert!(rt.is_polling_fallback_active());
    rt.apply_realtime_status(RealtimeStatusUpdate::new(RealtimeConnectionStatus::Connected, None));
    assert!(!rt.is_polling_fallback_active());
}

#[test]
fn notifications_panel() {
    let mut p = NotificationsState::new();
    p.selected_index = 5;
    p.apply_loaded_notifications(vec![
        note(1, "community", "c", false),
        note(2, "community", "c", false),
        note(3, "x", "y", false),
    ]);
    assert!(p.loaded);
    assert_eq!(p.selected_index, 2);
    p.select_next_notification();
    assert_eq!(p.selected_index, 2);
    p.select_previous_notification();
    p.select_previous_notification();
    p.select_previous_notification();
    assert_eq!(p.selected_index, 0);
    p.mark_read(2);
    assert!(!p.notifications[0].read && p.notifications[1].read && !p.notifications[2].read);
    p.mark_all_read();
    assert!(p.notifications.iter().all(|n| n.read));
    p.show = true;
    p.error = Some("e".to_string());
    p.close_notifications_panel();
    assert!(!p.show && p.error.is_none());
}

#[test]
fn notification_targets() {
    assert!(matches!(
        notification_target(&note(1, "community", "abc", false)),
        NotificationTarget::Community(ref s) if s == "abc"
    ));
    assert!(matches!(
        notification_target(&note(1, "dm_conversation", "x", false)),
        NotificationTarget::Conversation(77)
    ));
    match notification_target(&note(1, "poll", "x", false)) {
        NotificationTarget::Unknown(m) => assert_eq!(m, "Unknown notification source: poll"),
        _ => panic!("expected an unknown subject"),
    }
}

fn msg(id: u128, channel: u128) -> Message {
    Message {
        id,
        channel_id: channel,
        author_username: "a".to_string(),
        content: format!("m{}", id),
        created_at: id as i64,
    }
}

fn chat_with_channel() -> ChatState {
    let mut c = ChatState::new();
    c.channels = vec![Channel { id: 10, name: "general".to_string() }];
    c
}

#[test]
fn chat_messages_and_selection() {
    let mut c = chat_with_channel();
    let mut seen = HashSet::new();
    c.apply_loaded_messages(vec![msg(1, 10), msg(2, 10)], &mut seen);
    assert_eq!(c.selected, Some(1));
    assert!(seen.contains(&1) && seen.contains(&2));
    c.previous_chat_message();
    assert_eq!(c.selected, Some(0));
    c.next_chat_message();
    assert_eq!(c.selected, Some(1));
    c.apply_chat_message(msg(3, 10), &mut seen);
    assert_eq!(c.messages.len(), 3);
    assert_eq!(c.selected, Some(2));
    c.apply_chat_message(msg(3, 10), &mut seen);
    assert_eq!(c.messages.len(), 3);
    assert_eq!(c.older_messages_anchor(), Some((10, 1)));
    c.apply_older_messages(vec![msg(0, 10)]);
    assert_eq!(c.messages[0].id, 0);
    assert_eq!(c.selected, Some(0));
    c.apply_older_messages(vec![]);
    assert!(c.at_history_start);
    assert_eq!(c.older_messages_anchor(), None);
    c.clear_chat();
    assert!(c.channels.is_empty() && c.messages.is_empty() && c.selected.is_none());
    assert!(!c.at_history_start);
}

#[test]
fn chat_send_validation() {
    let empty = ChatState::new();
    assert_eq!(empty.channel_message_to_send("hi"), Err(ChatSendError::NoChannel));
    assert_eq!(ChatSendError::NoChannel.message(), "No chat channel is available.");
    let c = chat_with_channel();
    assert_eq!(c.channel_message_to_send("  \n"), Err(ChatSendError::EmptyMessage));
    assert_eq!(ChatSendError::EmptyMessage.message(), "Cannot send an empty message.");
    assert_eq!(c.channel_message_to_send("  hi  "), Ok((10, "hi".to_string())));
    assert_eq!(c.selected_chat_channel_id(), Some(10));
}

#[test]
fn pushed_chat_message_shown_only_in_open_channel() {
    let mut c = chat_with_channel();
    let mut seen = HashSet::new();
    let mut count = 0u64;
    let mut last = None;
    let ev = |id: u128, channel: u128, community: u128| ChannelMessageEvent {
        community_id: community,
        message: msg(id, channel),
    };
    c.apply_realtime_channel_message(ev(1, 10, 5), &mut seen, &mut count, &mut last, true, Some(5));
    assert_eq!(c.messages.len(), 1);
    assert_eq!(count, 1);
    c.apply_realtime_channel_message(ev(1, 10, 5), &mut seen, &mut count, &mut last, true, Some(5));
    assert_eq!(count, 1);
    c.apply_realtime_channel_message(ev(2, 11, 5), &mut seen, &mut count, &mut last, true, Some(5));
    c.apply_realtime_channel_message(ev(3, 10, 6), &mut seen, &mut count, &mut last, true, Some(5));
    c.apply_realtime_channel_message(ev(4, 10, 5), &mut seen, &mut count, &mut last, false, Some(5));
    assert_eq!(c.messages.len(), 1);
    assert_eq!(count, 4);
    assert_eq!(last.map(|e| e.message.id), Some(4));
}

fn dm(id: u128, from: u128, to: u128) -> DirectMessage {
    DirectMessage {
        id,
        from_user_id: from,
        to_user_id: to,
        from_username: format!("u{}", from),
        to_username: format!("u{}", to),
        content: format!("hello {}", id),
        created_at: 0,
        is_read: false,
    }
}

fn post(id: u128) -> Post {
    Post {
        id,
        author_id: 1,
        author_username: "a".to_string(),
        content: "c".to_string(),
        community_id: 5,
        parent_post_id: None,
        upvotes: 0,
        downvotes: 0,
        user_vote: None,
        created_at: 0,
        hashtags: vec![],
        approved: true,
        reply_count: 0,
    }
}

#[test]
fn envelope_routes_events() {
    let ctx = LiveContext { current_user: Some(1), on_main: true, tab: Tab::Posts, community_id: Some(5), config: None };
    let mut posts = PostsState::new();
    let mut dms = DMsState::new();
    let mut chat = chat_with_channel();
    let mut rt = RealtimeState::new();

    apply_realtime_envelope(Event::ThreadCreated(post(1)), &ctx, &mut posts, &mut dms, &mut chat, &mut rt);
    assert_eq!(posts.posts.len(), 1);
    apply_realtime_envelope(Event::ThreadPendingApproval(post(2)), &ctx, &mut posts, &mut dms, &mut chat, &mut rt);
    assert_eq!(posts.posts.len(), 1);
    assert!(rt.seen_posts.contains(&2));

    apply_realtime_envelope(Event::DmMessageCreated(dm(10, 2, 1)), &ctx, &mut posts, &mut dms, &mut chat, &mut rt);
    assert_eq!(dms.conversations.len(), 1);
    assert_eq!(dms.conversations[0].other_user_id, 2);
    assert_eq!(dms.conversations[0].unread_count, 1);
    assert_eq!(dms.selection, DMSelection::Conversation(0));
    apply_realtime_envelope(Event::DmMessageCreated(dm(10, 2, 1)), &ctx, &mut posts, &mut dms, &mut chat, &mut rt);
    assert_eq!(dms.conversations[0].unread_count, 1);

    apply_realtime_envelope(
        Event::DmRequestCreated { message: dm(11, 3, 1), state: DmConversationState::Pending },
        &ctx, &mut posts, &mut dms, &mut chat, &mut rt,
    );
    assert_eq!(dms.pending_requests.len(), 1);
    assert_eq!(dms.pending_requests[0].from_user_id, 3);
    assert_eq!(dms.conversations.len(), 1);

    let chat_ctx = LiveContext { tab: Tab::Chat, ..ctx };
    apply_realtime_envelope(
        Event::MessageCreated(ChannelMessageEvent { community_id: 5, message: msg(20, 10) }),
        &chat_ctx, &mut posts, &mut dms, &mut chat, &mut rt,
    );
    assert_eq!(chat.messages.len(), 1);
    assert_eq!(rt.channel_message_count, 1);

    apply_realtime_envelope(
        Event::NotificationCreated(note(30, "community", "5", false)),
        &ctx, &mut posts, &mut dms, &mut chat, &mut rt,
    );
    assert_eq!(rt.total_unread_notifications(), 1);
}

#[test]
fn notification_community_ids_parse_as_uuids() {
    assert_eq!(
        notification_community_id("67e55044-10b1-426f-9247-bb680e5fe0c8"),
        Ok(0x67e5504410b1426f9247bb680e5fe0c8)
    );
    let err = notification_community_id("not-a-uuid").unwrap_err();
    assert!(err.starts_with("Invalid notification community id: "));
    assert!(err.len() > "Invalid notification community id: ".len());
    assert_eq!(community_id_from_parse(Ok(5)), Ok(5));
    assert_eq!(
        community_id_from_parse(Err("bad".to_string())),
        Err("Invalid notification community id: bad".to_string())
    );
}

#[test]
fn notification_list_loading_and_selection() {
    let mut n = NotificationsState::new();
    n.begin_load();
    assert!(n.loading);
    n.finish_load(Err("Network Error".to_string()));
    assert!(!n.loading);
    assert_eq!(n.error.as_deref(), Some("Network Error"));
    assert!(n.selected_target().is_none());
    n.selected_index = 5;
    n.finish_load(Ok(vec![note(1, "community", "c1", false), note(2, "dm_conversation", "d", false)]));
    assert!(n.loaded);
    assert_eq!(n.selected_index, 1);
    match n.selected_target() {
        Some((2, NotificationTarget::Conversation(77))) => {}
        _ => panic!("expected the conversation with the actor"),
    }
}

#[test]
fn unread_counters_refresh_and_clear() {
    let mut rt = RealtimeState::new();
    rt.apply_unread_counts(Ok(vec![NotificationUnreadCount {
        subject_type: "community".to_string(),
        subject_id: "c".to_string(),
        count: 3,
    }]));
    assert_eq!(rt.total_unread_notifications(), 3);
    rt.apply_unread_counts(Err("down".to_string()));
    assert_eq!(rt.last_error.as_deref(), Some("down"));
    assert_eq!(rt.unread_notifications.len(), 1);
    rt.clear_unread_counts();
    assert_eq!(rt.total_unread_notifications(), 0);
}

#[test]
fn chat_loading_flow() {
    let mut c = ChatState::new();
    assert_eq!(c.begin_load(None), None);
    assert_eq!(c.error.as_deref(), Some("Open a community before using chat."));
    assert_eq!(c.begin_load(Some(3)), Some(3));
    assert!(c.loading && c.error.is_none());
    c.at_history_start = true;
    c.apply_channels(vec![Channel { id: 10, name: "general".to_string() }]);
    assert!(c.loaded && !c.at_history_start);
    assert_eq!(c.selected_chat_channel_id(), Some(10));
    c.apply_error("Network Error".to_string());
    assert_eq!(c.error.as_deref(), Some("Network Error"));
    c.end_load();
    assert!(!c.loading);
    c.set_loading_older(true);
    assert!(c.loading_older);
    c.messages = vec![msg(1, 10)];
    c.clear_messages();
    assert!(c.messages.is_empty() && c.selected.is_none());
    let mut seen = HashSet::new();
    c.apply_sent(msg(4, 10), &mut seen);
    assert!(c.error.is_none());
    assert_eq!(c.messages.len(), 1);
    assert_eq!(c.selected, Some(0));
    assert!(seen.contains(&4));
}
