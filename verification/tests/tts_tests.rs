use webarcade::tts::{
    admin_reply, auto_read_allowed, channel_settings, find_voice, is_whitelisted, tts_command,
    voice_list_messages, voice_not_found_message, voice_set_message, voice_status_message, voices,
    TtsCommand,
};

#[test]
fn catalogue_has_every_voice() {
    let v = voices();
    assert_eq!(v.len(), 54);
    assert_eq!(v[0], ("Brian".to_string(), "English (UK) - Male".to_string()));
    assert_eq!(v[53], ("Lucia".to_string(), "Spanish (European) - Female".to_string()));
}

#[test]
fn find_voice_prefers_exact_names() {
    assert_eq!(find_voice("brian"), Some("Brian".to_string()));
    assert_eq!(find_voice("BRIAN"), Some("Brian".to_string()));
    assert_eq!(find_voice("jan"), Some("Jan".to_string()));
}

#[test]
fn find_voice_falls_back_to_partial_matches() {
    assert_eq!(find_voice("uk"), Some("Brian".to_string()));
    assert_eq!(find_voice("german"), Some("Hans".to_string()));
    assert_eq!(find_voice("ja"), Some("Mizuki".to_string()));
    assert_eq!(find_voice("zzz"), None);
}

#[test]
fn management_commands_need_privilege() {
    assert!(matches!(tts_command("!tts on", true, false), TtsCommand::Enable));
    assert!(matches!(tts_command("!tts off", false, true), TtsCommand::Disable));
    assert!(matches!(tts_command("!tts on", false, false), TtsCommand::Ignore));
    assert!(matches!(tts_command("!tts add", true, false), TtsCommand::Ignore));
    assert!(matches!(tts_command("!tts dance", true, false), TtsCommand::Ignore));
    match tts_command("!tts add @SomeUser", true, false) {
        TtsCommand::AddUser(u) => assert_eq!(u, "someuser"),
        _ => panic!("expected AddUser"),
    }
    match tts_command("!tts remove @@Bob", false, true) {
        TtsCommand::RemoveUser(u) => assert_eq!(u, "bob"),
        _ => panic!("expected RemoveUser"),
    }
}

#[test]
fn voice_commands_are_read() {
    assert!(matches!(tts_command("!voices", false, false), TtsCommand::ListVoices(None)));
    match tts_command("!voices French extra", false, false) {
        TtsCommand::ListVoices(Some(f)) => assert_eq!(f, "french"),
        _ => panic!("expected a filter"),
    }
    assert!(matches!(tts_command("!voice", false, false), TtsCommand::ShowVoice));
    assert!(matches!(tts_command("!voice   ", false, false), TtsCommand::ShowVoice));
    match tts_command("!voice  Brian   uk", false, false) {
        TtsCommand::SetVoice(q) => assert_eq!(q, "Brian uk"),
        _ => panic!("expected SetVoice"),
    }
    assert!(matches!(tts_command("hello world", false, false), TtsCommand::Speak));
    assert!(matches!(tts_command("!tts", true, true), TtsCommand::Speak));
}

#[test]
fn voice_list_filtered() {
    let m = voice_list_messages("bob", &Some("french".to_string()));
    assert_eq!(
        m,
        vec![
            "🔊 TTS Voices: Celine, Lea, Mathieu, Chantal".to_string(),
            "@bob Use !voice <name> to set your voice. Filter: !voices english/french/male/female".to_string(),
        ]
    );
}

#[test]
fn voice_list_unfiltered_shows_twenty() {
    let m = voice_list_messages("bob", &None);
    assert_eq!(m.len(), 2);
    assert_eq!(
        m[0],
        "🔊 TTS Voices: Brian, Amy, Emma, Geraint, Russell, Nicole, Joey, Justin, Matthew, Ivy, Joanna, Kendra, Kimberly, Salli, Raveena, Cristiano, Ines, Vitoria, Ricardo, Mizuki"
    );
}

#[test]
fn voice_list_without_matches() {
    let m = voice_list_messages("bob", &Some("klingon".to_string()));
    assert_eq!(m, vec!["@bob No voices found matching 'klingon'".to_string()]);
}

#[test]
fn replies() {
    assert_eq!(admin_reply(&TtsCommand::Enable), Some("TTS has been enabled!".to_string()));
    assert_eq!(admin_reply(&TtsCommand::Disable), Some("TTS has been disabled!".to_string()));
    assert_eq!(
        admin_reply(&TtsCommand::AddUser("amy".to_string())),
        Some("Added amy to TTS whitelist!".to_string())
    );
    assert_eq!(
        admin_reply(&TtsCommand::RemoveUser("amy".to_string())),
        Some("Removed amy from TTS whitelist!".to_string())
    );
    assert_eq!(admin_reply(&TtsCommand::Speak), None);
    assert_eq!(
        voice_status_message("bob", "Amy", true),
        "@bob Your TTS voice is set to: Amy. Use !voice <name> to change it or !voices to see all options."
    );
    assert_eq!(
        voice_status_message("bob", "Brian", false),
        "@bob You haven't set a TTS voice yet (using default: Brian). Set one to enable TTS!. Use !voice <name> to change it or !voices to see all options."
    );
    assert_eq!(
        voice_set_message("bob", "Brian"),
        "✅ @bob Your TTS voice is now set to: Brian (English (UK) - Male)"
    );
    assert_eq!(voice_set_message("bob", "Zed"), "✅ @bob Your TTS voice is now set to: Zed (Unknown)");
    assert_eq!(
        voice_not_found_message("bob", "zzz"),
        "@bob Voice 'zzz' not found. Use !voices to see all available voices."
    );
}

#[test]
fn auto_read_permissions() {
    assert!(!auto_read_allowed(false, "everyone", true, true, true));
    assert!(auto_read_allowed(true, "broadcaster", true, false, false));
    assert!(!auto_read_allowed(true, "broadcaster", false, true, true));
    assert!(auto_read_allowed(true, "whitelist", false, true, false));
    assert!(auto_read_allowed(true, "whitelist", false, false, true));
    assert!(!auto_read_allowed(true, "whitelist", false, false, false));
    assert!(auto_read_allowed(true, "everyone", false, false, false));
    assert!(!auto_read_allowed(true, "nobody", true, true, true));
}

#[test]
fn whitelist_and_settings() {
    let users = vec!["amy".to_string(), "bob".to_string()];
    assert!(is_whitelisted(&users, "bob"));
    assert!(!is_whitelisted(&users, "Bob"));
    assert_eq!(channel_settings(None), (false, "broadcaster".to_string()));
    assert_eq!(channel_settings(Some((2, "everyone".to_string()))), (true, "everyone".to_string()));
    assert_eq!(channel_settings(Some((0, "whitelist".to_string()))), (false, "whitelist".to_string()));
}

#[test]
fn speech_urls() {
    assert_eq!(
        webarcade::tts::speech_url("Brian", "foo bar?"),
        "https://api.streamelements.com/kappa/v2/speech?voice=Brian&text=foo%20bar%3F"
    );
    assert_eq!(
        webarcade::tts::speech_url("Amy", "a-b_c.é"),
        "https://api.streamelements.com/kappa/v2/speech?voice=Amy&text=a%2Db%5Fc%2E%C3%A9"
    );
}

#[test]
fn queue_and_voice_defaults() {
    assert_eq!(webarcade::tts::voice_or_default(None), "Brian");
    assert_eq!(webarcade::tts::voice_or_default(Some("Amy".into())), "Amy");
    assert_eq!(webarcade::tts::cleanup_cutoff(10_000), 6_400);
    assert_eq!(webarcade::tts::queue_total(2, 1), 3);
}
