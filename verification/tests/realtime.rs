use std::time::Duration;

use fido::realtime::{
    connect_failure, frame_step, preflight, reconnect_delay, websocket_url, ws_transport_is_safe,
    ClientAction, ClientEvent, ClientNotice, ClientPhase, ConnectionOutcome, Frame, FrameStep,
    RealtimeClient, RealtimeConnectionStatus, RealtimeStatusUpdate,
};

#[test]
fn reconnect_delay_caps_at_maximum() {
    assert_eq!(Duration::from_secs(reconnect_delay(0)), Duration::from_secs(1));
    assert_eq!(Duration::from_secs(reconnect_delay(1)), Duration::from_secs(2));
    assert_eq!(Duration::from_secs(reconnect_delay(20)), Duration::from_secs(30));
}

#[test]
fn websocket_url_matches_http_origin_scheme() {
    assert_eq!(websocket_url("https://example.com"), "wss://example.com/ws");
    assert_eq!(websocket_url("http://127.0.0.1:3000/"), "ws://127.0.0.1:3000/ws");
}

#[test]
fn ws_transport_safety_allows_wss_and_loopback_only() {
    assert!(ws_transport_is_safe("wss://example.com/ws"));
    assert!(ws_transport_is_safe("ws://127.0.0.1:3000/ws"));
    assert!(ws_transport_is_safe("ws://localhost:3000/ws"));
    // Plaintext to a remote host must not carry the token.
    assert!(!ws_transport_is_safe("ws://example.com/ws"));
    assert!(!ws_transport_is_safe("ws://10.0.0.5:3000/ws"));
}

#[test]
fn reconnect_delay_doubles_until_the_cap() {
    let secs: Vec<u64> = (0..8).map(reconnect_delay).collect();
    assert_eq!(secs, vec![1, 2, 4, 8, 16, 30, 30, 30]);
    assert_eq!(reconnect_delay(u32::MAX), 30);
}

#[test]
fn websocket_url_without_scheme_uses_ws() {
    assert_eq!(websocket_url("example.com//"), "ws://example.com/ws");
}

#[test]
fn ws_transport_trims_and_rejects_other_schemes() {
    assert!(ws_transport_is_safe("  wss://x  "));
    assert!(!ws_transport_is_safe("http://127.0.0.1/ws"));
    assert!(ws_transport_is_safe("ws://localhost"));
    assert!(ws_transport_is_safe("ws://[::1]:3000/ws"));
}

#[test]
fn status_labels_and_polling() {
    assert_eq!(RealtimeConnectionStatus::Disabled.label(), "off");
    assert_eq!(RealtimeConnectionStatus::Connecting.label(), "connecting");
    assert_eq!(RealtimeConnectionStatus::Connected.label(), "live");
    assert_eq!(RealtimeConnectionStatus::Reconnecting.label(), "polling");
    assert_eq!(RealtimeConnectionStatus::Unauthorized.label(), "auth");
    assert!(RealtimeConnectionStatus::Connecting.uses_polling_fallback());
    assert!(RealtimeConnectionStatus::Reconnecting.uses_polling_fallback());
    assert!(!RealtimeConnectionStatus::Connected.uses_polling_fallback());
    let u = RealtimeStatusUpdate::new(RealtimeConnectionStatus::Connected, Some("x".to_string()));
    assert_eq!(u.message.as_deref(), Some("x"));
    assert!(RealtimeStatusUpdate::from_status(RealtimeConnectionStatus::Disabled).message.is_none());
}

#[test]
fn preflight_refuses_insecure_transport() {
    assert!(preflight("wss://example.com/ws").is_none());
    match preflight("ws://example.com/ws") {
        Some(ConnectionOutcome::Unauthorized(m)) => {
            assert_eq!(m, "insecure ws:// transport; use wss:// or a loopback server")
        }
        other => panic!("unexpected {:?}", other),
    }
}

#[test]
fn connect_failures_and_frames() {
    match connect_failure(Some(401), "boom".to_string()) {
        ConnectionOutcome::Unauthorized(m) => assert_eq!(m, "session rejected by /ws"),
        other => panic!("unexpected {:?}", other),
    }
    match connect_failure(Some(500), "boom".to_string()) {
        ConnectionOutcome::Retry(m) => assert_eq!(m, "boom"),
        other => panic!("unexpected {:?}", other),
    }
    assert!(matches!(frame_step(Frame::Text { parsed: true }), FrameStep::Deliver));
    assert!(matches!(frame_step(Frame::Text { parsed: false }), FrameStep::Continue));
    assert!(matches!(frame_step(Frame::Ping), FrameStep::Pong));
    match frame_step(Frame::Close(Some(String::new()))) {
        FrameStep::Finish(ConnectionOutcome::Retry(m)) => assert_eq!(m, "websocket closed"),
        other => panic!("unexpected {:?}", other),
    }
    match frame_step(Frame::Close(Some("bye".to_string()))) {
        FrameStep::Finish(ConnectionOutcome::Retry(m)) => assert_eq!(m, "bye"),
        other => panic!("unexpected {:?}", other),
    }
}

fn status_of(a: &ClientAction) -> Option<(RealtimeConnectionStatus, Option<String>)> {
    match a {
        ClientAction::Notify(ClientNotice::Status(u)) => Some((u.status, u.message.clone())),
        _ => None,
    }
}

#[test]
fn client_loop_retries_with_backoff_then_stops_on_unauthorized() {
    let mut c = RealtimeClient::new();
    let a = c.step(ClientEvent::Started { has_token: true });
    assert_eq!(status_of(&a), Some((RealtimeConnectionStatus::Connecting, None)));
    assert!(matches!(c.step(ClientEvent::Delivered), ClientAction::Connect));
    let a = c.step(ClientEvent::Outcome(ConnectionOutcome::Retry("closed".to_string())));
    assert!(matches!(a, ClientAction::Notify(ClientNotice::RefetchRequired)));
    let a = c.step(ClientEvent::Undelivered);
    assert_eq!(
        status_of(&a),
        Some((RealtimeConnectionStatus::Reconnecting, Some("closed".to_string())))
    );
    assert!(matches!(c.step(ClientEvent::Delivered), ClientAction::Sleep(1)));
    let a = c.step(ClientEvent::Woke);
    assert_eq!(c.attempt, 1);
    assert_eq!(status_of(&a), Some((RealtimeConnectionStatus::Reconnecting, None)));
    assert!(matches!(c.step(ClientEvent::Delivered), ClientAction::Connect));
    let a = c.step(ClientEvent::Outcome(ConnectionOutcome::Unauthorized("no".to_string())));
    assert_eq!(
        status_of(&a),
        Some((RealtimeConnectionStatus::Unauthorized, Some("no".to_string())))
    );
    assert!(matches!(c.step(ClientEvent::Undelivered), ClientAction::Stop));
    assert!(matches!(c.phase, ClientPhase::Stopped));
}

#[test]
fn client_loop_without_token_reports_disabled() {
    let mut c = RealtimeClient::new();
    let a = c.step(ClientEvent::Started { has_token: false });
    assert_eq!(
        status_of(&a),
        Some((RealtimeConnectionStatus::Disabled, Some("missing session token".to_string())))
    );
    assert!(matches!(c.step(ClientEvent::Delivered), ClientAction::Stop));
    assert!(matches!(c.step(ClientEvent::Woke), ClientAction::Stop));
}

#[test]
fn client_loop_stops_when_receiver_drops() {
    let mut c = RealtimeClient::new();
    c.step(ClientEvent::Started { has_token: true });
    assert!(matches!(c.step(ClientEvent::Undelivered), ClientAction::Stop));
    let mut c = RealtimeClient::new();
    c.step(ClientEvent::Started { has_token: true });
    c.step(ClientEvent::Delivered);
    assert!(matches!(
        c.step(ClientEvent::Outcome(ConnectionOutcome::ReceiverDropped)),
        ClientAction::Stop
    ));
    let mut c = RealtimeClient::new();
    assert!(matches!(c.step(ClientEvent::Woke), ClientAction::Ignore));
}

#[test]
fn bracketed_ipv6_loopback_is_a_safe_ws_origin() {
    assert!(ws_transport_is_safe("ws://[::1]:3000/ws"));
    assert!(ws_transport_is_safe("ws://[::1]/ws"));
    assert!(!ws_transport_is_safe("ws://[::2]:3000/ws"));
    assert!(!ws_transport_is_safe("ws://[::1:3000/ws"));
    assert!(ws_transport_is_safe("ws://localhost:3000/ws"));
    assert!(!ws_transport_is_safe("ws://example.com:3000/ws"));
}
