use webarcade::levels::{calculate_level, level_change, xp_for_level};

#[test]
fn level_is_one_below_first_threshold() {
    assert_eq!(calculate_level(0), 1);
    assert_eq!(calculate_level(99), 1);
    assert_eq!(calculate_level(-5), 1);
}

#[test]
fn level_follows_square_root_of_hundreds() {
    assert_eq!(calculate_level(100), 1);
    assert_eq!(calculate_level(399), 1);
    assert_eq!(calculate_level(400), 2);
    assert_eq!(calculate_level(899), 2);
    assert_eq!(calculate_level(900), 3);
    assert_eq!(calculate_level(10_000), 10);
    assert_eq!(calculate_level(i64::MAX), 303_700_049);
}

#[test]
fn threshold_is_square_times_hundred() {
    assert_eq!(xp_for_level(1), 100);
    assert_eq!(xp_for_level(5), 2500);
    assert_eq!(xp_for_level(0), 0);
}

#[test]
fn threshold_gives_its_level() {
    for l in 1..200i64 {
        assert_eq!(calculate_level(xp_for_level(l)), l);
        assert_eq!(calculate_level(xp_for_level(l) - 1), if l == 1 { 1 } else { l - 1 });
    }
}

#[test]
fn level_change_reports_level_up() {
    let c = level_change(Some(1), 400);
    assert_eq!(c.old_level, 1);
    assert_eq!(c.new_level, 2);
    assert!(c.leveled_up);
    assert!(c.needs_update);
    let same = level_change(Some(2), 450);
    assert!(!same.leveled_up);
    assert!(!same.needs_update);
    let fresh = level_change(None, 5);
    assert_eq!(fresh.old_level, 1);
    assert_eq!(fresh.new_level, 1);
}
