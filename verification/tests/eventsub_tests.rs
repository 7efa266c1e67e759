use webarcade::eventsub::{
    event_name, queued_event, socket_action, EventFields, EventSubManager, EventSubSubscription,
    EventSubTransport, EventSubWebhookPayload, SocketAction,
};

const SIG: &str = "sha256=779fb25ace60855428901457567b8a640368d7e7c80504ab52c23c0890238abe";

fn manager() -> EventSubManager {
    EventSubManager::new("cid".into(), "tok".into(), "s3cr3t".into(), "https://cb".into())
}

fn fields() -> EventFields {
    EventFields {
        user_id: None,
        user_name: None,
        from_broadcaster_user_id: None,
        from_broadcaster_user_name: None,
        broadcaster_user_id: None,
        broadcaster_user_name: None,
        followed_at: None,
    }
}

fn payload(challenge: Option<&str>, event: Option<EventFields>) -> EventSubWebhookPayload {
    EventSubWebhookPayload {
        subscription: EventSubSubscription {
            id: "sub".into(),
            subscription_type: "channel.follow".into(),
            version: "2".into(),
            condition: "{}".into(),
            transport: EventSubTransport { method: "webhook".into(), callback: "https://cb".into(), secret: None },
            status: "enabled".into(),
            created_at: "now".into(),
        },
        event,
        challenge: challenge.map(|s| s.to_string()),
    }
}

#[test]
fn signature_matches_hmac() {
    let m = manager();
    assert!(m.verify_signature("{}", SIG, "id1", "2024-01-01T00:00:00Z"));
    assert!(!m.verify_signature("{ }", SIG, "id1", "2024-01-01T00:00:00Z"));
    assert!(!m.verify_signature("{}", "sha256=00", "id1", "2024-01-01T00:00:00Z"));
}

#[test]
fn webhook_rejections() {
    let m = manager();
    let r = m.handle_webhook(false, Some(b"{}".to_vec()), "id1", "notification", "2024-01-01T00:00:00Z", SIG, None);
    assert_eq!((r.status, r.body.as_str()), (405, "Method not allowed"));
    let r = m.handle_webhook(true, None, "id1", "notification", "2024-01-01T00:00:00Z", SIG, None);
    assert_eq!((r.status, r.body.as_str()), (400, "Failed to read body"));
    let r = m.handle_webhook(true, Some(vec![0xff, 0xfe]), "id1", "notification", "t", SIG, None);
    assert_eq!((r.status, r.body.as_str()), (400, "Invalid UTF-8"));
    let r = m.handle_webhook(true, Some(b"{}".to_vec()), "id1", "notification", "other", SIG, None);
    assert_eq!((r.status, r.body.as_str()), (403, "Invalid signature"));
    let r = m.handle_webhook(true, Some(b"{}".to_vec()), "id1", "notification", "2024-01-01T00:00:00Z", SIG, None);
    assert_eq!((r.status, r.body.as_str()), (400, "Invalid JSON"));
}

#[test]
fn webhook_answers() {
    let m = manager();
    let ts = "2024-01-01T00:00:00Z";
    let body = Some(b"{}".to_vec());
    let r = m.handle_webhook(true, body.clone(), "id1", "webhook_callback_verification", ts, SIG, Some(payload(Some("abc"), None)));
    assert_eq!((r.status, r.body.as_str(), r.text_plain), (200, "abc", true));
    let r = m.handle_webhook(true, body.clone(), "id1", "webhook_callback_verification", ts, SIG, Some(payload(None, None)));
    assert_eq!((r.status, r.body.as_str()), (400, "Challenge missing"));
    let r = m.handle_webhook(true, body.clone(), "id1", "notification", ts, SIG, Some(payload(None, Some(fields()))));
    assert_eq!(r.status, 204);
    assert_eq!(r.notification.map(|n| n.0), Some("channel.follow".to_string()));
    let r = m.handle_webhook(true, body.clone(), "id1", "notification", ts, SIG, Some(payload(None, None)));
    assert_eq!(r.status, 204);
    assert!(r.notification.is_none());
    let r = m.handle_webhook(true, body.clone(), "id1", "revocation", ts, SIG, Some(payload(None, None)));
    assert_eq!(r.status, 204);
    let r = m.handle_webhook(true, body, "id1", "mystery", ts, SIG, Some(payload(None, None)));
    assert_eq!((r.status, r.body.as_str()), (400, "Unknown message type"));
}

#[test]
fn transport_of_manager() {
    let t = manager().transport();
    assert_eq!(t.method, "webhook");
    assert_eq!(t.callback, "https://cb");
    assert_eq!(t.secret, Some("s3cr3t".to_string()));
}

#[test]
fn queued_events() {
    assert_eq!(
        event_name("channel.channel_points_custom_reward_redemption.add"),
        "twitch.channel_channel_points_custom_reward_redemption_add"
    );
    let mut f = fields();
    f.user_id = Some(Some("1".into()));
    f.user_name = Some(Some("amy".into()));
    f.followed_at = Some(Some("2024-01-01T00:00:00Z".into()));
    let q = queued_event("channel.follow", &f, 5).expect("follow");
    assert_eq!(q.event_type, "twitch.follow");
    assert_eq!(q.followed_at, Some(1704067200));
    f.followed_at = Some(Some("yesterday".into()));
    assert_eq!(queued_event("channel.follow", &f, 5).unwrap().followed_at, Some(5));
    f.user_name = None;
    assert!(queued_event("channel.follow", &f, 5).is_none());

    let mut r = fields();
    r.from_broadcaster_user_id = Some(Some("7".into()));
    r.from_broadcaster_user_name = Some(Some("raider".into()));
    r.broadcaster_user_id = Some(Some("9".into()));
    let q = queued_event("channel.raid", &r, 5).unwrap();
    assert_eq!(q.event_type, "twitch.channel_raid");
    assert_eq!(q.user_id, Some("7".to_string()));
    assert_eq!(q.username, Some("raider".to_string()));
    r.user_id = Some(None);
    assert_eq!(queued_event("channel.raid", &r, 5).unwrap().user_id, None);
}

#[test]
fn socket_messages() {
    assert!(matches!(socket_action(Some("session_welcome".into()), Some("s1".into()), None), SocketAction::Welcome(ref s) if s == "s1"));
    assert!(matches!(socket_action(Some("session_welcome".into()), None, None), SocketAction::MissingSession));
    assert!(matches!(socket_action(Some("notification".into()), None, None), SocketAction::Notification(ref t) if t == "unknown"));
    assert!(matches!(socket_action(Some("revocation".into()), None, Some("x".into())), SocketAction::Revocation(ref t) if t == "x"));
    assert!(matches!(socket_action(Some("session_keepalive".into()), None, None), SocketAction::Keepalive));
    assert!(matches!(socket_action(Some("session_reconnect".into()), None, None), SocketAction::Reconnect));
    assert!(matches!(socket_action(None, None, None), SocketAction::Unknown));
}
