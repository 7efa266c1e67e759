use webarcade::records::{filtered_query, leading_id};
use webarcade::oauth::{account_from_path, account_type_param, auth_callback_params, credentials_given, CallbackError};
use webarcade::database::{affected_message, blob_text, command_word, is_read_query};
use webarcade::files::{entry_size, is_listed, may_open};
use webarcade::hue::{bridge_id, bridge_url, group_row, light_row, pair_outcome, route_id, GroupInfo, LightInfo, PairAnswer, PairOutcome};
use webarcade::levels::{level_route, xp_user_id};
use webarcade::overlays::{discord_command, discord_reply, layout_name, layout_page, overlay_iframe, DiscordCommand, LayoutNameError, OverlayBox};
use webarcade::plugins::{ChannelCommandsPlugin, PhilipsHuePlugin, PluginIdePlugin, RoulettePlugin, TtsPlugin, YoutubePlugin};
use webarcade::query::{extract_path_param, extract_query_param, parse_path, parse_query, parse_query_param};
use webarcade::records::{check_confession, confession_settings, confession_status, note_update_columns, path_id, segment_update_columns, update_statement, PathIdError};

#[test]
fn console_queries() {
    assert!(is_read_query("  select * from users"));
    assert!(is_read_query("PRAGMA table_info(users)"));
    assert!(!is_read_query("UPDATE users SET xp = 0"));
    assert!(!is_read_query(""));
    assert_eq!(affected_message(3), "3 row(s) affected");
    assert_eq!(blob_text(10), "<blob 10 bytes>");
}

#[test]
fn text_command_words() {
    assert_eq!(command_word("!hello world"), Some("hello".to_string()));
    assert_eq!(command_word("!"), Some(String::new()));
    assert_eq!(command_word("!  spaced"), Some("spaced".to_string()));
    assert_eq!(command_word("hi !there"), None);
}

#[test]
fn file_browser() {
    assert!(!is_listed(".env", false));
    assert!(!is_listed("target", true));
    assert!(is_listed("target", false));
    assert!(!is_listed("node_modules", true));
    assert!(is_listed("src", true));
    assert!(may_open(10 * 1024 * 1024));
    assert!(!may_open(10 * 1024 * 1024 + 1));
    assert_eq!(entry_size(true, Some(5)), 0);
    assert_eq!(entry_size(false, Some(5)), 5);
    assert_eq!(entry_size(false, None), 0);
}

#[test]
fn hue_paths_and_urls() {
    assert_eq!(route_id("/bridges/2/discover", "bridges/", "/discover"), "2");
    assert_eq!(bridge_id("bridges/2/discover", "/discover"), Some(2));
    assert_eq!(bridge_id("/bridges/12/pair", "/pair"), Some(12));
    assert_eq!(bridge_id("/bridges/x/pair", "/pair"), None);
    assert_eq!(bridge_id("/bridges/7", ""), Some(7));
    assert_eq!(bridge_url("10.0.0.2", Some("abc"), "lights"), "http://10.0.0.2/api/abc/lights");
    assert_eq!(bridge_url("10.0.0.2", None, "lights"), "http://10.0.0.2/api");
}

#[test]
fn hue_pairing() {
    let paired = pair_outcome(Some(PairAnswer { username: Some("u1".into()), error_description: Some("x".into()) }));
    assert!(matches!(paired, PairOutcome::Paired(ref u) if u == "u1"));
    let refused = pair_outcome(Some(PairAnswer { username: None, error_description: Some("link button not pressed".into()) }));
    assert!(matches!(refused, PairOutcome::Refused(ref d) if d == "link button not pressed"));
    assert!(matches!(pair_outcome(None), PairOutcome::Unexpected));
    assert!(matches!(pair_outcome(Some(PairAnswer { username: None, error_description: None })), PairOutcome::Unexpected));
}

#[test]
fn hue_rows() {
    let l = light_row(
        LightInfo { id: "1".into(), name: None, kind: Some("Extended color light".into()), on: Some(true), bri: Some(254), hue: None, sat: None, ct: Some(366), reachable: None },
        3,
        99,
    );
    assert_eq!(l.name, "Unknown");
    assert_eq!(l.kind, "Extended color light");
    assert_eq!((l.state_on, l.reachable), (1, 0));
    assert_eq!((l.brightness, l.hue, l.color_temp), (Some(254), None, Some(366)));
    assert_eq!((l.bridge_id, l.last_updated), (3, 99));
    let g = group_row(
        GroupInfo { id: "g".into(), name: Some("Room".into()), kind: None, lights: Some(vec![Some("1".into()), None, Some("3".into())]), on: Some(false), bri: None },
        3,
        99,
    );
    assert_eq!(g.lights, "1,3");
    assert_eq!(g.kind, "Unknown");
    assert_eq!(g.state_on, 0);
    let empty = group_row(GroupInfo { id: "g".into(), name: None, kind: None, lights: None, on: None, bri: None }, 1, 1);
    assert_eq!(empty.lights, "");
}

#[test]
fn level_routes() {
    assert_eq!(level_route("/user/chan/bob"), Some(("chan".to_string(), "bob".to_string())));
    assert_eq!(level_route("/user/my%20chan/bob"), Some(("my chan".to_string(), "bob".to_string())));
    assert_eq!(level_route("/user/a/b/c"), None);
    assert_eq!(level_route("/user/a"), None);
    assert_eq!(xp_user_id("chan", "bob"), "chan:bob");
}

#[test]
fn layouts() {
    assert_eq!(layout_name("/layout/Main"), Ok("Main".to_string()));
    assert_eq!(layout_name("/layout/My%20Layout"), Ok("My Layout".to_string()));
    assert_eq!(layout_name("/layout/"), Err(LayoutNameError::Missing));
    assert_eq!(layout_name("/layout/%FF"), Err(LayoutNameError::Invalid));
    let o = OverlayBox { kind: Some("chat".into()), x: Some(10), y: None, width: None, height: Some(200), z_index: None };
    assert_eq!(
        overlay_iframe(&o),
        "<iframe src=\"/overlay/chat\" style=\"position: absolute; left: 10px; top: 0px; width: 400px; height: 200px; z-index: 1; border: none; background: transparent;\"></iframe>"
    );
    let page = layout_page("Main", &vec![o]);
    assert!(page.starts_with("<!DOCTYPE html>"));
    assert!(page.contains("<title>Main</title>"));
    assert!(page.contains("<iframe src=\"/overlay/chat\""));
    assert!(page.ends_with("</body>\n</html>"));
}

#[test]
fn discord_commands() {
    assert!(matches!(discord_command("!PING", "!", false), DiscordCommand::Ping));
    assert!(matches!(discord_command("!ping", "!", true), DiscordCommand::Ignore));
    assert!(matches!(discord_command("hello", "!", false), DiscordCommand::Ignore));
    assert!(matches!(discord_command("!   ", "!", false), DiscordCommand::Ignore));
    assert!(matches!(discord_command("?help me", "?", false), DiscordCommand::Help));
    assert!(matches!(discord_command("!foo bar", "!", false), DiscordCommand::Custom(ref c) if c == "foo"));
    assert_eq!(discord_reply(&DiscordCommand::Ping), Some("Pong!".to_string()));
    assert!(discord_reply(&DiscordCommand::Info).unwrap().starts_with("**WebArcade Discord Bot**\n"));
    assert_eq!(discord_reply(&DiscordCommand::Custom("x".into())), None);
}

#[test]
fn plugin_metadata() {
    let m = TtsPlugin.metadata();
    assert_eq!((m.id.as_str(), m.name.as_str(), m.version.as_str()), ("tts", "Text-to-Speech", "1.0.0"));
    assert_eq!(RoulettePlugin.metadata().dependencies, vec!["currency".to_string()]);
    assert_eq!(ChannelCommandsPlugin.metadata().dependencies, vec!["twitch".to_string()]);
    assert_eq!(PhilipsHuePlugin.metadata().id, "philips-hue");
    assert_eq!(PluginIdePlugin.metadata().author, "WebArcade");
    assert_eq!(YoutubePlugin.metadata().name, "YouTube Integration");
}

#[test]
fn query_helpers() {
    assert_eq!(parse_query_param("a=1&b=hello%20world", "b"), Some("hello world".to_string()));
    assert_eq!(parse_query_param("a=1", "b"), None);
    assert_eq!(extract_query_param("limit=5&channel=x", "limit"), "5");
    assert_eq!(extract_query_param("limit=5", "channel"), "");
    assert_eq!(extract_path_param("/transactions/u%201", "/transactions/"), "u 1");
    assert_eq!(extract_path_param("/other/1", "/transactions/"), "");
    let q = parse_query("code=abc&state=x&code=def");
    assert_eq!(q.get("code"), Some("def".to_string()));
    assert_eq!(q.get("state"), Some("x".to_string()));
    assert_eq!(q.get("nope"), None);
    let p = parse_path("/channels/UC123/analytics");
    assert_eq!(p.id, Some("UC123".to_string()));
    assert_eq!(p.channel_id, Some("UC123".to_string()));
    let p = parse_path("/channels");
    assert_eq!(p.id, None);
}

#[test]
fn records() {
    assert_eq!(path_id("/5", "/"), Ok(5));
    assert_eq!(path_id("/", "/"), Err(PathIdError::Missing));
    assert_eq!(path_id("/abc", "/"), Err(PathIdError::Invalid));
    assert_eq!(path_id("/segments/7", "/segments/"), Ok(7));
    let cols = note_update_columns(true, false, true).unwrap();
    assert_eq!(cols, vec!["title".to_string(), "category".to_string()]);
    assert!(note_update_columns(false, false, false).is_none());
    assert_eq!(
        update_statement("notes", &cols),
        "UPDATE notes SET title = ?, category = ?, updated_at = ? WHERE id = ?"
    );
    assert_eq!(update_statement("notes", &Vec::new()), "UPDATE notes SET updated_at = ? WHERE id = ?");
    assert_eq!(segment_update_columns(true, true), vec!["enabled".to_string(), "content".to_string()]);
    assert!(segment_update_columns(false, false).is_empty());
}

#[test]
fn confessions() {
    let d = confession_settings(None, None, None);
    assert!(d.require_moderation);
    assert_eq!((d.min_length, d.max_length), (10, 500));
    let s = confession_settings(Some("false".into()), Some("3".into()), Some("x".into()));
    assert!(!s.require_moderation);
    assert_eq!((s.min_length, s.max_length), (3, 500));
    assert_eq!(check_confession("short", &d), Some("Confession too short (minimum 10 characters)".to_string()));
    assert_eq!(check_confession("long enough text", &d), None);
    let tight = confession_settings(None, Some("1".into()), Some("4".into()));
    assert_eq!(check_confession("héllo", &tight), Some("Confession too long (maximum 4 characters)".to_string()));
    assert_eq!(confession_status(true), "pending");
    assert_eq!(confession_status(false), "approved");
}

#[test]
fn listing_queries() {
    let cols = vec!["assigned_to".to_string(), "category".to_string()];
    assert_eq!(
        filtered_query("SELECT * FROM t WHERE 1=1", &cols, " ORDER BY id"),
        "SELECT * FROM t WHERE 1=1 AND assigned_to = ? AND category = ? ORDER BY id"
    );
    assert_eq!(filtered_query("SELECT 1 WHERE 1=1", &Vec::new(), ""), "SELECT 1 WHERE 1=1");
    assert_eq!(leading_id("/tasks/12/complete", "/tasks/"), Some(12));
    assert_eq!(leading_id("/tasks/x/complete", "/tasks/"), None);
    assert_eq!(leading_id("/other", "/tasks/"), None);
}

#[test]
fn twitch_account_routes() {
    assert_eq!(account_type_param("type=bot", "type"), Some("bot".to_string()));
    assert_eq!(account_type_param("type=admin", "type"), None);
    assert_eq!(account_type_param("x=1", "type"), None);
    assert_eq!(auth_callback_params("code=abc&state=broadcaster"), Ok(("abc".to_string(), "broadcaster".to_string())));
    assert_eq!(auth_callback_params("state=bot"), Err(CallbackError::MissingCode));
    assert_eq!(auth_callback_params("code=abc&state=x"), Err(CallbackError::InvalidState));
    assert_eq!(account_from_path("/accounts/bot"), Some("bot".to_string()));
    assert_eq!(account_from_path("/accounts/other"), None);
    assert!(credentials_given("id", "secret"));
    assert!(!credentials_given("", "secret"));
}
