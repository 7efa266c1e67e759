use webarcade::channel_commands::{category_search, channel_command, channel_reply, CategorySearch, ChannelCommand, ChannelReply};
use webarcade::watchtime::{hours_minutes, period_cutoff, watchtime_reply, watchtime_target, ActiveViewers};

#[test]
fn title_commands() {
    match channel_command("!settitle   My Stream  ", true, false) {
        ChannelCommand::SetTitle(t) => assert_eq!(t, "My Stream"),
        _ => panic!("expected SetTitle"),
    }
    assert!(matches!(channel_command("!settitle    ", false, true), ChannelCommand::TitleUsage));
    assert!(matches!(channel_command("!settitle Hi", false, false), ChannelCommand::Ignore));
    assert!(matches!(channel_command("!settitle", true, true), ChannelCommand::Ignore));
}

#[test]
fn category_commands() {
    match channel_command("!setgame Chess", true, false) {
        ChannelCommand::SetCategory(c) => assert_eq!(c, "Chess"),
        _ => panic!("expected SetCategory"),
    }
    match channel_command("!setcategory Just Chatting", false, true) {
        ChannelCommand::SetCategory(c) => assert_eq!(c, "Just Chatting"),
        _ => panic!("expected SetCategory"),
    }
    assert!(matches!(channel_command("!setcategory   ", true, false), ChannelCommand::CategoryUsage));
    assert!(matches!(channel_command("hello", true, false), ChannelCommand::Ignore));
}

#[test]
fn category_search_results() {
    assert!(matches!(category_search(None), CategorySearch::Invalid));
    assert!(matches!(category_search(Some(vec![])), CategorySearch::NotFound));
    assert!(matches!(category_search(Some(vec![None, Some("9".to_string())])), CategorySearch::NotFound));
    match category_search(Some(vec![Some("42".to_string()), Some("9".to_string())])) {
        CategorySearch::Found(id) => assert_eq!(id, "42"),
        _ => panic!("expected Found"),
    }
}

#[test]
fn channel_replies() {
    assert_eq!(channel_reply("bob", &ChannelReply::TitleUsage), "@bob Usage: !settitle <new title>");
    assert_eq!(
        channel_reply("bob", &ChannelReply::CategoryNotFound("Chess".to_string())),
        "@bob Category 'Chess' not found"
    );
    assert_eq!(
        channel_reply("bob", &ChannelReply::CategoryUpdated("Chess".to_string())),
        "@bob Category updated to 'Chess'!"
    );
    assert_eq!(
        channel_reply("bob", &ChannelReply::TitleFailed("401".to_string())),
        "@bob Failed to update title: 401"
    );
}

#[test]
fn viewers_are_tracked_and_dropped() {
    let mut v = ActiveViewers::new();
    v.record("c", "u", 100);
    v.record("c", "v", 200);
    v.record("c", "u", 300);
    assert_eq!(v.len(), 2);
    let awarded = v.tick(450);
    assert_eq!(awarded.len(), 2);
    let awarded = v.tick(550);
    assert_eq!(awarded, vec![("c".to_string(), "u".to_string())]);
    assert_eq!(v.len(), 1);
    let again = v.tick(550);
    assert_eq!(again, awarded);
    let none = v.tick(601);
    assert!(none.is_empty());
    assert_eq!(v.len(), 0);
}

#[test]
fn same_user_in_two_channels() {
    let mut v = ActiveViewers::new();
    v.record("a", "u", 10);
    v.record("b", "u", 10);
    assert_eq!(v.len(), 2);
}

#[test]
fn watchtime_command() {
    assert_eq!(watchtime_target("!watchtime", "Bob"), Some("Bob".to_string()));
    assert_eq!(watchtime_target("!watchtime @alice", "Bob"), Some("alice".to_string()));
    assert_eq!(watchtime_target("hi", "Bob"), None);
    assert_eq!(hours_minutes(125), (2, 5));
    assert_eq!(hours_minutes(-61), (-1, -1));
    assert_eq!(
        watchtime_reply("Bob", "bob", Some(125)),
        "@Bob You have watched for 2 hours and 5 minutes! ⏱️"
    );
    assert_eq!(
        watchtime_reply("Bob", "alice", Some(59)),
        "@alice has watched for 0 hours and 59 minutes! ⏱️"
    );
    assert_eq!(watchtime_reply("Bob", "alice", None), "@alice hasn't watched yet! 👀");
    assert_eq!(
        watchtime_reply("Bob", "BOB", None),
        "@Bob You haven't watched yet! Start watching to track your time. 👀"
    );
}

#[test]
fn period_cutoffs() {
    assert_eq!(period_cutoff("day", 100_000), 13_600);
    assert_eq!(period_cutoff("week", 1_000_000), 395_200);
    assert_eq!(period_cutoff("month", 3_000_000), 408_000);
    assert_eq!(period_cutoff("all", 3_000_000), 0);
    assert_eq!(period_cutoff("year", 3_000_000), 0);
}

#[test]
fn search_pattern() {
    assert_eq!(webarcade::watchtime::like_pattern("bo"), "%bo%");
}
