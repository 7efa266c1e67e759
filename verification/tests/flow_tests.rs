use webarcade::channel_commands::{category_update, title_update, CategorySearch, ChannelReply};
use webarcade::hue::discover_precheck;
use webarcade::oauth::timestamp_of;
use webarcade::query::parse_query_param;
use webarcade::roulette::{
    bet_plan, bet_targets, bets_after_charge, refund_calls, BetPlan, BetRefusal, BetTarget,
    TableAction,
};
use webarcade::simulate::{bulk_color, stored_test_events, test_event_kind, TestEvent};
use webarcade::tts::{admin_reply, tts_command, tts_service_call, ServiceCall, TtsCommand};
use webarcade::watchtime::{minute_awards, MinuteAward};

#[test]
fn timestamps_from_clock_readings() {
    assert_eq!(timestamp_of(None), 0);
    assert_eq!(timestamp_of(Some(1_700_000_000)), 1_700_000_000);
    assert_eq!(timestamp_of(Some(u64::MAX)), -1);
}

#[test]
fn tts_commands_make_their_service_calls() {
    let on = tts_command("!tts on", false, true);
    match tts_service_call(&on, "chan") {
        Some(ServiceCall::UpdateChannelSettings { channel, enabled, mode }) => {
            assert_eq!(channel, "chan");
            assert!(enabled);
            assert_eq!(mode, "whitelist");
        }
        _ => panic!("expected channel settings"),
    }
    assert_eq!(admin_reply(&on).as_deref(), Some("TTS has been enabled!"));
    let off = tts_command("!tts off", true, false);
    assert!(matches!(tts_service_call(&off, "chan"), Some(ServiceCall::UpdateChannelSettings { enabled: false, .. })));
    let add = tts_command("!tts add @Alice", false, true);
    match tts_service_call(&add, "chan") {
        Some(ServiceCall::AddWhitelistUser { channel, username }) => {
            assert_eq!(channel, "chan");
            assert_eq!(username, "alice");
        }
        _ => panic!("expected whitelist addition"),
    }
    assert_eq!(admin_reply(&add).as_deref(), Some("Added alice to TTS whitelist!"));
    let rm = tts_command("!tts remove Bob", true, true);
    assert!(matches!(tts_service_call(&rm, "c"), Some(ServiceCall::RemoveWhitelistUser { ref username, .. }) if username == "bob"));
    assert!(tts_service_call(&TtsCommand::Speak, "c").is_none());
    assert!(tts_service_call(&tts_command("!tts on", false, false), "c").is_none());
}

fn strings(v: &[&str]) -> Vec<String> {
    v.iter().map(|s| s.to_string()).collect()
}

#[test]
fn refunds_pay_back_every_bet() {
    let bets = vec![("alice".to_string(), 50i64), ("bob".to_string(), 20)];
    let r = refund_calls(TableAction::Refund, "chan", &bets).unwrap();
    assert_eq!(r.len(), 2);
    assert_eq!(r[0].channel, "chan");
    assert_eq!(r[0].username, "alice");
    assert_eq!(r[0].amount, 50);
    assert_eq!(r[0].reason, "Roulette bet refund");
    assert_eq!(r[1].username, "bob");
    assert_eq!(r[1].amount, 20);
    assert_eq!(refund_calls(TableAction::Stop, "chan", &bets).unwrap().len(), 0);
    assert!(refund_calls(TableAction::Spin, "chan", &bets).is_none());
    assert!(refund_calls(TableAction::Start, "chan", &bets).is_none());
}

#[test]
fn bet_plans() {
    let targets = bet_targets(&strings(&["50", "Red", "purple", "7", "37"]));
    assert_eq!(targets, vec![BetTarget::Red, BetTarget::Number(7)]);
    match bet_plan("chan", "u", 50, &targets, 100) {
        BetPlan::Deduct { charge, stake, bets } => {
            assert_eq!(charge.channel, "chan");
            assert_eq!(charge.username, "u");
            assert_eq!(charge.amount, 100);
            assert_eq!(charge.reason, "Roulette bet");
            assert_eq!(stake, 50);
            assert_eq!(bets, targets);
        }
        _ => panic!("expected a deduction"),
    }
    assert!(matches!(
        bet_plan("chan", "u", 50, &targets, 99),
        BetPlan::Refuse(BetRefusal::CannotAfford { need: 100, have: 99 })
    ));
    let none = bet_targets(&strings(&["50", "purple", "37"]));
    assert!(matches!(bet_plan("chan", "u", 50, &none, 1000), BetPlan::Silent));
}

#[test]
fn failed_charge_places_no_bet() {
    let bets = vec![BetTarget::Odd];
    assert_eq!(bets_after_charge("u", true, bets.clone()), Ok(bets.clone()));
    assert_eq!(
        bets_after_charge("u", false, bets),
        Err("@u ❌ Failed to place bet (currency error)".to_string())
    );
}

#[test]
fn category_goes_to_the_channel() {
    match category_update("Chess", CategorySearch::Found("743".to_string())) {
        Ok(u) => {
            assert_eq!(u.category_id.as_deref(), Some("743"));
            assert!(u.title.is_none());
        }
        Err(_) => panic!("expected an update"),
    }
    assert!(matches!(category_update("Chess", CategorySearch::NotFound), Err(ChannelReply::CategoryNotFound(ref n)) if n == "Chess"));
    assert!(matches!(category_update("Chess", CategorySearch::Invalid), Err(ChannelReply::SearchInvalid)));
    let t = title_update("New title");
    assert_eq!(t.title.as_deref(), Some("New title"));
    assert!(t.category_id.is_none());
}

#[test]
fn watching_a_minute_awards_time_xp_and_coins() {
    let a = minute_awards("chan", "viewer");
    assert_eq!(a.len(), 3);
    assert!(matches!(&a[0], MinuteAward::Time { channel, username, minutes: 1 } if channel == "chan" && username == "viewer"));
    assert!(matches!(&a[1], MinuteAward::Xp { channel, username, amount: 5, reason } if channel == "chan" && username == "viewer" && reason == "Watching stream"));
    assert!(matches!(&a[2], MinuteAward::Coins { user_id, username, amount: 10, reason } if user_id == "viewer" && username == "viewer" && reason == "Watching stream"));
}

#[test]
fn bulk_events_store_five() {
    let r = stored_test_events(&TestEvent::Bulk);
    assert_eq!(r.len(), 5);
    assert_eq!(r[0].0, "channel.follow");
    assert!(matches!(&r[0].1, TestEvent::Follow(n) if n == "follower1"));
    assert!(matches!(&r[1].1, TestEvent::Follow(n) if n == "follower2"));
    assert_eq!(r[2].0, "channel.subscribe");
    assert!(matches!(&r[2].1, TestEvent::Subscribe(n) if n == "subscriber1"));
    assert_eq!(r[3].0, "channel.cheer");
    assert!(matches!(&r[3].1, TestEvent::Cheer(n, 500) if n == "cheerer1"));
    assert_eq!(r[4].0, "channel.raid");
    assert!(matches!(&r[4].1, TestEvent::Raid(n, 100) if n == "raider1"));
    let one = stored_test_events(&TestEvent::Cheer("x".to_string(), 7));
    assert_eq!(one.len(), 1);
    assert_eq!(one[0].0, "channel.cheer");
    assert!(stored_test_events(&TestEvent::Unknown).is_empty());
    assert_eq!(test_event_kind(&TestEvent::Bulk).as_deref(), Some("bulk_events"));
    assert!(test_event_kind(&TestEvent::Unknown).is_none());
    assert_eq!(bulk_color(1001), "#FF8200");
}

#[test]
fn discover_checks_before_asking_the_bridge() {
    assert_eq!(discover_precheck(None, None), Err((400, "Invalid bridge ID".to_string())));
    assert_eq!(discover_precheck(Some(2), None), Err((404, "Bridge not found".to_string())));
    assert_eq!(
        discover_precheck(Some(2), Some(("10.0.0.2".to_string(), None))),
        Err((401, "Bridge not paired".to_string()))
    );
    assert_eq!(
        discover_precheck(Some(2), Some(("10.0.0.2".to_string(), Some("key".to_string())))),
        Ok(("10.0.0.2".to_string(), "key".to_string()))
    );
}

#[test]
fn percent_decoding_edge_cases() {
    assert_eq!(parse_query_param("v=a%2x", "v"), Some("a%2x".to_string()));
    assert_eq!(parse_query_param("v=%zz1", "v"), Some("%zz1".to_string()));
    assert_eq!(parse_query_param("v=ab%4", "v"), Some("ab%4".to_string()));
    assert_eq!(parse_query_param("v=%C3%A9+x", "v"), Some("é+x".to_string()));
    assert_eq!(parse_query_param("v=%FF&v=ok", "v"), Some("ok".to_string()));
    assert_eq!(parse_query_param("v=%41%62", "v"), Some("Ab".to_string()));
}
