use webarcade::irc::handle_received;
use webarcade::irc::chat_record;
use webarcade::irc::{
    capabilities_line, handle_line, join_line, nick_line, parse_privmsg, pass_line, privmsg_line,
    IrcEvent,
};

#[test]
fn privmsg_with_tags_is_read() {
    let line = "@badges=broadcaster/1;color=#FF0000;display-name=Bob :bob!bob@bob.tmi.twitch.tv PRIVMSG #chan :hello there";
    let c = parse_privmsg(line).expect("chat line");
    assert_eq!(c.channel, "chan");
    assert_eq!(c.username, "bob");
    assert_eq!(c.message, "hello there");
    assert_eq!(c.tags.get("color"), Some("#FF0000".to_string()));
    assert_eq!(c.tags.get("display-name"), Some("Bob".to_string()));
    assert_eq!(c.tags.get("missing"), None);
}

#[test]
fn privmsg_without_tags_is_read() {
    let c = parse_privmsg(":alice!alice@host PRIVMSG #room :hi :) ok").expect("chat line");
    assert_eq!(c.channel, "room");
    assert_eq!(c.username, "alice");
    assert_eq!(c.message, "hi :) ok");
}

#[test]
fn malformed_privmsg_is_rejected() {
    assert!(parse_privmsg(":alice PRIVMSG").is_none());
    assert!(parse_privmsg("alice!a@h PRIVMSG #room :hi").is_none());
    assert!(parse_privmsg(":alice!a@h PRIVMSG room :hi").is_none());
    assert!(parse_privmsg(":alice!a@h PRIVMSG #room hi").is_none());
}

#[test]
fn ping_is_answered() {
    match handle_line("PING :tmi.twitch.tv") {
        IrcEvent::Reply(s) => assert_eq!(s, "PONG :tmi.twitch.tv\r\n"),
        _ => panic!("expected a reply"),
    }
}

#[test]
fn chat_and_other_lines() {
    assert!(matches!(handle_line(":a!a@h PRIVMSG #c :x"), IrcEvent::Chat(_)));
    assert!(matches!(handle_line(":tmi.twitch.tv 001 bot :Welcome"), IrcEvent::Ignore));
    assert!(matches!(handle_line("PRIVMSG broken"), IrcEvent::Ignore));
}

#[test]
fn protocol_lines() {
    assert_eq!(pass_line("abc"), "PASS oauth:abc\r\n");
    assert_eq!(nick_line("bot"), "NICK bot\r\n");
    assert_eq!(join_line("chan"), "JOIN #chan\r\n");
    assert_eq!(privmsg_line("chan", "hi"), "PRIVMSG #chan :hi\r\n");
    assert_eq!(
        capabilities_line(),
        "CAP REQ :twitch.tv/membership twitch.tv/tags twitch.tv/commands\r\n"
    );
}

#[test]
fn received_lines_are_trimmed() {
    assert!(matches!(handle_received("   \r\n"), IrcEvent::Ignore));
    match handle_received("PING :tmi.twitch.tv\r\n") {
        IrcEvent::Reply(s) => assert_eq!(s, "PONG :tmi.twitch.tv\r\n"),
        _ => panic!("expected a reply"),
    }
}

#[test]
fn chat_records() {
    let c = parse_privmsg("@color=#00FF00;user-id=42;badges=moderator/1 :bob!bob@h PRIVMSG #c :\u{1}ACTION waves\u{1}").unwrap();
    let r = chat_record(&c);
    assert_eq!(r.is_action, 1);
    assert_eq!(r.color, "#00FF00");
    assert_eq!(r.display_name, "bob");
    assert_eq!(r.user_id, "42");
    assert_eq!(r.badges, "moderator/1");
    assert_eq!(r.emotes, "");
    let plain = chat_record(&parse_privmsg(":amy!amy@h PRIVMSG #c :hi").unwrap());
    assert_eq!(plain.is_action, 0);
    assert_eq!(plain.color, "");
}
