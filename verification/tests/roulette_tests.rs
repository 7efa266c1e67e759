use webarcade::roulette::{
    bet_amount, bet_confirmation, bet_target, bet_targets, bet_total, can_afford, payout_multiplier,
    refusal_message, route_message, start_decision, table_action, table_message, takes_bets,
    BetAmount, BetRefusal, BetTarget, RouletteRoute, StartDecision, TableAction,
};

fn strings(v: &[&str]) -> Vec<String> {
    v.iter().map(|s| s.to_string()).collect()
}

#[test]
fn routing() {
    match route_message("!roulette start now") {
        RouletteRoute::Table(a) => assert_eq!(a, strings(&["start", "now"])),
        _ => panic!("expected table"),
    }
    assert!(matches!(route_message("!roulette"), RouletteRoute::Ignore));
    match route_message("!bet 10 red") {
        RouletteRoute::Bet(a) => assert_eq!(a, strings(&["10", "red"])),
        _ => panic!("expected bet"),
    }
    match route_message("!b") {
        RouletteRoute::Bet(a) => assert!(a.is_empty()),
        _ => panic!("expected bet"),
    }
    assert!(matches!(route_message("hello"), RouletteRoute::Ignore));
    assert!(matches!(route_message(""), RouletteRoute::Ignore));
}

#[test]
fn table_actions() {
    assert_eq!(table_action(&strings(&["ON"])), TableAction::Enable);
    assert_eq!(table_action(&strings(&["enable"])), TableAction::Enable);
    assert_eq!(table_action(&strings(&["Disable"])), TableAction::Disable);
    assert_eq!(table_action(&strings(&["start"])), TableAction::Start);
    assert_eq!(table_action(&strings(&["spin"])), TableAction::Spin);
    assert_eq!(table_action(&strings(&["Cancel"])), TableAction::Refund);
    assert_eq!(table_action(&strings(&["close"])), TableAction::Stop);
    assert_eq!(table_action(&strings(&["x"])), TableAction::Unknown);
    assert_eq!(table_action(&Vec::new()), TableAction::Unknown);
}

#[test]
fn start_decisions() {
    assert_eq!(start_decision(None, false), StartDecision::OpenTable);
    assert_eq!(start_decision(Some(false), false), StartDecision::Disabled);
    assert_eq!(start_decision(Some(true), true), StartDecision::AlreadyRunning);
    assert!(takes_bets("betting"));
    assert!(!takes_bets("spinning"));
}

#[test]
fn amounts() {
    assert_eq!(bet_amount(&Vec::new()), BetAmount::Missing);
    assert_eq!(bet_amount(&strings(&["5"])), BetAmount::TooSmall);
    assert_eq!(bet_amount(&strings(&["abc"])), BetAmount::TooSmall);
    assert_eq!(bet_amount(&strings(&["10"])), BetAmount::Stake(10));
    assert_eq!(bet_amount(&strings(&["+20", "red"])), BetAmount::Stake(20));
}

#[test]
fn targets() {
    assert_eq!(bet_target("RED"), Some(BetTarget::Red));
    assert_eq!(bet_target("17"), Some(BetTarget::Number(17)));
    assert_eq!(bet_target("07"), Some(BetTarget::Number(7)));
    assert_eq!(bet_target("0"), Some(BetTarget::Number(0)));
    assert_eq!(bet_target("37"), None);
    assert_eq!(bet_target("-1"), None);
    assert_eq!(bet_target("1st"), Some(BetTarget::Dozen1));
    assert_eq!(bet_target("2ND"), Some(BetTarget::Dozen2));
    assert_eq!(bet_target("dozen3"), Some(BetTarget::Dozen3));
    assert_eq!(bet_target("foo"), None);
    assert_eq!(
        bet_targets(&strings(&["10", "red", "37", "2nd", "5"])),
        vec![BetTarget::Red, BetTarget::Dozen2, BetTarget::Number(5)]
    );
    assert!(bet_targets(&strings(&["10"])).is_empty());
    assert!(bet_targets(&Vec::new()).is_empty());
}

#[test]
fn costs_and_payouts() {
    assert_eq!(bet_total(10, 3), 30);
    assert_eq!(bet_total(0, 5), 0);
    assert!(can_afford(30, 30));
    assert!(!can_afford(29, 30));
    assert_eq!(BetTarget::Number(7).value_text(), "7");
    assert_eq!(BetTarget::Number(7).type_text(), "number");
    assert_eq!(BetTarget::Dozen2.type_text(), "dozen2");
    assert_eq!(payout_multiplier("17"), 35);
    assert_eq!(payout_multiplier("dozen1"), 2);
    assert_eq!(payout_multiplier("red"), 1);
}

#[test]
fn confirmations() {
    assert_eq!(
        bet_confirmation("bob", 10, &strings(&["17"]), 10),
        Some("🎰 @bob bet 10 coins on 17! Potential win: 360 coins (35:1)".to_string())
    );
    assert_eq!(
        bet_confirmation("bob", 10, &strings(&["red"]), 10),
        Some("🎰 @bob bet 10 coins on red! Potential win: 20 coins (1:1)".to_string())
    );
    assert_eq!(
        bet_confirmation("bob", 10, &strings(&["red", "black"]), 20),
        Some("🎰 @bob placed 2 bets of 10 coins each! Total: 20 coins".to_string())
    );
    assert_eq!(bet_confirmation("bob", 10, &Vec::new(), 0), None);
}

#[test]
fn refusals_and_announcements() {
    assert_eq!(refusal_message("bob", &BetRefusal::TooSmall), "@bob ❌ Minimum bet is 10 coins");
    assert_eq!(
        refusal_message("bob", &BetRefusal::CannotAfford { need: 30, have: 5 }),
        "@bob ❌ Not enough coins! You need 30 but have 5"
    );
    assert_eq!(
        refusal_message("bob", &BetRefusal::NoGame),
        "@bob 🎰 No active roulette game. Wait for a mod to start one!"
    );
    assert_eq!(
        refusal_message("bob", &BetRefusal::CurrencyError),
        "@bob ❌ Failed to place bet (currency error)"
    );
    assert_eq!(
        table_message(TableAction::Start, StartDecision::OpenTable),
        Some("🎰 Roulette table is open! Place your bets with !bet <amount> <type>. Spinning in 30 seconds!".to_string())
    );
    assert_eq!(table_message(TableAction::Spin, StartDecision::OpenTable), None);
}
