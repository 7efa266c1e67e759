use webarcade::oauth::{
    bearer, code_exchange_form, current_timestamp, expired_at, expiry_time, generate_auth_url,
    get_auth_url, get_client_id_public, is_token_expired, needs_refresh, read_token, refresh_form,
    scopes_joined, TokenError, TokenFields,
};
use webarcade::simulate::{bulk_color, bulk_test_rows, chat_test, cheer_text, test_event, test_event_kind, test_event_message, ChatTest, TestEvent, TestEventRequest};
use webarcade::weighted::{open_pack, pick_weighted, spin_wheel, weight_total};
use webarcade::youtube::{analytics_params, channel_from_item, summary_counts, summary_query, AnalyticsQuery, Cell, ChannelItem};

#[test]
fn weighted_picks() {
    let w = vec![1i64, 2, 3];
    assert_eq!(weight_total(&w), 6);
    assert_eq!(pick_weighted(&w, 0), 0);
    assert_eq!(pick_weighted(&w, 1), 1);
    assert_eq!(pick_weighted(&w, 2), 1);
    assert_eq!(pick_weighted(&w, 3), 2);
    assert_eq!(pick_weighted(&w, 5), 2);
}

#[test]
fn wheel_and_packs() {
    assert_eq!(spin_wheel(&Vec::new()), None);
    for _ in 0..20 {
        assert_eq!(spin_wheel(&vec![0, 5, 0]), Some(1));
    }
    let drawn = open_pack(&vec![0, 1]);
    assert_eq!(drawn, vec![1, 1]);
    let drawn = open_pack(&vec![1, 1, 1, 1]);
    assert_eq!(drawn.len(), 3);
    assert!(drawn.iter().all(|i| *i < 4));
    assert!(open_pack(&Vec::new()).is_empty());
}

#[test]
fn token_times() {
    assert!(expired_at(10, 10));
    assert!(!expired_at(9, 10));
    assert!(needs_refresh(1000, 800));
    assert!(!needs_refresh(1000, 700));
    assert_eq!(expiry_time(100, 3600), 3700);
    assert!(current_timestamp() > 1_600_000_000);
    assert!(is_token_expired(0));
    assert!(!is_token_expired(i64::MAX));
}

#[test]
fn twitch_authorization() {
    assert_eq!(scopes_joined("bot", " "), "chat:read chat:edit whispers:read whispers:edit");
    assert!(scopes_joined("broadcaster", ",").starts_with("channel:read:subscriptions,channel:read:redemptions,"));
    assert_eq!(
        generate_auth_url("cid", "bot"),
        "https://id.twitch.tv/oauth2/authorize?client_id=cid&redirect_uri=http%3A%2F%2Flocalhost%3A3001%2Ftwitch%2Fauth%2Fcallback&response_type=code&scope=chat%3Aread%20chat%3Aedit%20whispers%3Aread%20whispers%3Aedit&state=bot"
    );
    let settings = vec![("client_secret".to_string(), "s".to_string()), ("client_id".to_string(), "abc".to_string())];
    assert_eq!(get_client_id_public(&settings), Some("abc".to_string()));
    assert_eq!(get_client_id_public(&Vec::new()), None);
    assert_eq!(bearer("tok"), "Bearer tok");
    let f = code_exchange_form("id", "sec", "code1");
    assert_eq!(f[2], ("code".to_string(), "code1".to_string()));
    assert_eq!(f[4].1, "http://localhost:3001/twitch/auth/callback");
    let r = refresh_form("id", "sec", "rt");
    assert_eq!(r[3], ("grant_type".to_string(), "refresh_token".to_string()));
}

#[test]
fn token_responses() {
    let ok = read_token(TokenFields { access_token: Some("a".into()), refresh_token: Some("b".into()), expires_in: Some(60) });
    assert_eq!(ok, Ok(("a".to_string(), "b".to_string(), 60)));
    let e = read_token(TokenFields { access_token: None, refresh_token: None, expires_in: None });
    assert_eq!(e, Err(TokenError::MissingAccessToken));
    let e = read_token(TokenFields { access_token: Some("a".into()), refresh_token: None, expires_in: Some(1) });
    assert_eq!(e, Err(TokenError::MissingRefreshToken));
    let e = read_token(TokenFields { access_token: Some("a".into()), refresh_token: Some("b".into()), expires_in: None });
    assert_eq!(e, Err(TokenError::MissingExpiresIn));
}

#[test]
fn youtube_authorization() {
    assert_eq!(
        get_auth_url("my id", None),
        "https://accounts.google.com/o/oauth2/v2/auth?client_id=my%20id&redirect_uri=http%3A%2F%2Flocalhost%3A3001%2Fyoutube%2Fauth%2Fcallback&response_type=code&scope=https%3A%2F%2Fwww.googleapis.com%2Fauth%2Fyoutube.readonly%20https%3A%2F%2Fwww.googleapis.com%2Fauth%2Fyt-analytics.readonly%20https%3A%2F%2Fwww.googleapis.com%2Fauth%2Fuserinfo.profile&access_type=offline&prompt=consent&state=state"
    );
    assert!(get_auth_url("x", Some("a b".into())).ends_with("&state=a%20b"));
}

#[test]
fn simulated_events() {
    let req = |kind: Option<&str>| TestEventRequest {
        kind: kind.map(|s| s.to_string()),
        follower_name: None,
        subscriber_name: None,
        cheerer_name: None,
        raider_name: None,
        bits: None,
        viewers: None,
    };
    let f = test_event(req(None));
    assert!(matches!(f, TestEvent::Follow(ref n) if n == "test_follower"));
    assert_eq!(test_event_message(&f), "Test follow event created for test_follower");
    assert_eq!(test_event_kind(&f), Some("follow_event".to_string()));
    let c = test_event(req(Some("cheer")));
    assert_eq!(test_event_message(&c), "Test cheer event created: 100 bits from test_cheerer");
    let r = test_event(req(Some("raid")));
    assert_eq!(test_event_message(&r), "Test raid event created: test_raider raiding with 50 viewers");
    let s = test_event(req(Some("subscribe")));
    assert_eq!(test_event_message(&s), "Test subscribe event created for test_subscriber");
    let b = test_event(req(Some("bulk_events")));
    assert_eq!(test_event_message(&b), "Created 5 test events (2 follows, 1 sub, 1 cheer, 1 raid)");
    let u = test_event(req(Some("party")));
    assert!(test_event_kind(&u).is_none());
    assert_eq!(test_event_message(&u), "Unknown test type. Use: follow, subscribe, cheer, raid, or bulk_events");
    assert_eq!(cheer_text(250), "Cheered 250 bits!");
}

#[test]
fn simulated_chat() {
    assert!(matches!(chat_test(None, None, None), ChatTest::Message { ref channel, ref message } if channel == "webarcade" && message == "Test message from WebArcade Twitch plugin!"));
    assert!(matches!(chat_test(Some("connection".into()), None, None), ChatTest::Connection));
    assert!(matches!(chat_test(Some("bulk_messages".into()), Some("c".into()), None), ChatTest::Bulk { ref channel } if channel == "c"));
    assert!(matches!(chat_test(Some("x".into()), None, None), ChatTest::Unknown));
    assert_eq!(bulk_color(0), "#FF0000");
    assert_eq!(bulk_color(1), "#FF3200");
    assert_eq!(bulk_color(4), "#FFC800");
    let rows = bulk_test_rows("c", 1000);
    assert_eq!(rows.len(), 5);
    assert_eq!(rows[2].username, "user3");
    assert_eq!(rows[2].message, "This is a test message");
    assert_eq!(rows[2].user_id, "10002");
    assert_eq!(rows[2].timestamp, 1002);
    assert_eq!(rows[2].color, "#FF6400");
}

#[test]
fn youtube_data() {
    let ch = channel_from_item(ChannelItem {
        id: Some("UC1".into()),
        title: None,
        description: Some("d".into()),
        custom_url: None,
        thumbnail_url: Some("t".into()),
        subscriber_count: Some("1200".into()),
        video_count: Some("x".into()),
        view_count: None,
    });
    assert_eq!(ch.id, "UC1");
    assert_eq!(ch.title, "");
    assert_eq!(ch.subscriber_count, Some(1200));
    assert_eq!(ch.video_count, None);
    let q = summary_query("2024-01-01", "2024-01-31");
    assert_eq!(q.metrics.len(), 8);
    let p = analytics_params("UC1", &q);
    assert_eq!(p.len(), 4);
    assert_eq!(p[0], ("ids".to_string(), "channel==UC1".to_string()));
    assert_eq!(p[3].1, "views,estimatedMinutesWatched,subscribersGained,subscribersLost,averageViewDuration,likes,comments,shares");
    let q2 = AnalyticsQuery { start_date: "a".into(), end_date: "b".into(), metrics: vec!["views".into()], dimensions: Some(vec!["day".into(), "country".into()]) };
    let p2 = analytics_params("UC1", &q2);
    assert_eq!(p2[4], ("dimensions".to_string(), "day,country".to_string()));
    let cell = |u: Option<u64>, i: Option<i64>| Cell { as_u64: u, as_i64: i };
    let row = vec![cell(Some(100), Some(100)), cell(Some(50), Some(50)), cell(Some(7), Some(7)), cell(Some(2), Some(2)), cell(Some(30), Some(30)), cell(Some(9), Some(9)), cell(Some(1), Some(1)), cell(None, None)];
    let s = summary_counts(Some(row));
    assert_eq!(s.views, Some(100));
    assert_eq!(s.subscriber_change, Some(5));
    assert_eq!(s.shares, None);
    assert_eq!(summary_counts(Some(vec![cell(Some(1), None)])).views, None);
    assert_eq!(summary_counts(None).subscriber_change, None);
}
