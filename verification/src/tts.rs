//! Text-to-speech chat commands: the voice catalogue, voice lookup, the
//! `!tts`, `!voices` and `!voice` commands and the auto-read permission.
use vstd::prelude::*;
use vstd::string::StringSliceAdditionalSpecFns;
use crate::query::hex_upper;
use crate::text::{append_chars, append_str, chars_byte_len, chars_of, contains_chars, contains_seq, has_prefix, join_from, join_with, lowercase, same_text, split_whitespace, split_ws, starts_with_str, string_of, strip_leading, to_lower, trim_start_char, byte_len};

verus! {

/// The StreamElements voices: name and description, in catalogue order.
pub open spec fn voice_table() -> Seq<(Seq<char>, Seq<char>)> {
    seq![
        ("Brian"@, "English (UK) - Male"@),
        ("Amy"@, "English (UK) - Female"@),
        ("Emma"@, "English (UK) - Female"@),
        ("Geraint"@, "English (Welsh) - Male"@),
        ("Russell"@, "English (Australian) - Male"@),
        ("Nicole"@, "English (Australian) - Female"@),
        ("Joey"@, "English (US) - Male"@),
        ("Justin"@, "English (US) - Male (Child)"@),
        ("Matthew"@, "English (US) - Male"@),
        ("Ivy"@, "English (US) - Female (Child)"@),
        ("Joanna"@, "English (US) - Female"@),
        ("Kendra"@, "English (US) - Female"@),
        ("Kimberly"@, "English (US) - Female"@),
        ("Salli"@, "English (US) - Female"@),
        ("Raveena"@, "English (Indian) - Female"@),
        ("Cristiano"@, "Portuguese (European) - Male"@),
        ("Ines"@, "Portuguese (European) - Female"@),
        ("Vitoria"@, "Portuguese (Brazilian) - Female"@),
        ("Ricardo"@, "Portuguese (Brazilian) - Male"@),
        ("Mizuki"@, "Japanese - Female"@),
        ("Takumi"@, "Japanese - Male"@),
        ("Seoyeon"@, "Korean - Female"@),
        ("Liv"@, "Norwegian - Female"@),
        ("Lotte"@, "Dutch - Female"@),
        ("Ruben"@, "Dutch - Male"@),
        ("Jacek"@, "Polish - Male"@),
        ("Jan"@, "Polish - Male"@),
        ("Ewa"@, "Polish - Female"@),
        ("Maja"@, "Polish - Female"@),
        ("Filiz"@, "Turkish - Female"@),
        ("Astrid"@, "Swedish - Female"@),
        ("Maxim"@, "Russian - Male"@),
        ("Tatyana"@, "Russian - Female"@),
        ("Carmen"@, "Romanian - Female"@),
        ("Gwyneth"@, "Welsh - Female"@),
        ("Mads"@, "Danish - Male"@),
        ("Naja"@, "Danish - Female"@),
        ("Hans"@, "German - Male"@),
        ("Marlene"@, "German - Female"@),
        ("Vicki"@, "German - Female"@),
        ("Karl"@, "Icelandic - Male"@),
        ("Dora"@, "Icelandic - Female"@),
        ("Giorgio"@, "Italian - Male"@),
        ("Carla"@, "Italian - Female"@),
        ("Bianca"@, "Italian - Female"@),
        ("Celine"@, "French - Female"@),
        ("Lea"@, "French - Female"@),
        ("Mathieu"@, "French - Male"@),
        ("Chantal"@, "French (Canadian) - Female"@),
        ("Penelope"@, "Spanish (US) - Female"@),
        ("Miguel"@, "Spanish (US) - Male"@),
        ("Enrique"@, "Spanish (European) - Male"@),
        ("Conchita"@, "Spanish (European) - Female"@),
        ("Lucia"@, "Spanish (European) - Female"@)
    ]
}

/// The catalogue as plain text pairs.
pub open spec fn pairs_view(v: Seq<(String, String)>) -> Seq<(Seq<char>, Seq<char>)> {
    v.map_values(|p: (String, String)| (p.0@, p.1@))
}

/// The voice catalogue.
#[verifier::rlimit(40)]
pub fn voices() -> (r: Vec<(String, String)>)
    ensures
        pairs_view(r@) == voice_table(),
{
    let mut v: Vec<(String, String)> = Vec::new();
    v.push(("Brian".to_owned(), "English (UK) - Male".to_owned()));
    v.push(("Amy".to_owned(), "English (UK) - Female".to_owned()));
    v.push(("Emma".to_owned(), "English (UK) - Female".to_owned()));
    v.push(("Geraint".to_owned(), "English (Welsh) - Male".to_owned()));
    v.push(("Russell".to_owned(), "English (Australian) - Male".to_owned()));
    v.push(("Nicole".to_owned(), "English (Australian) - Female".to_owned()));
    v.push(("Joey".to_owned(), "English (US) - Male".to_owned()));
    v.push(("Justin".to_owned(), "English (US) - Male (Child)".to_owned()));
    v.push(("Matthew".to_owned(), "English (US) - Male".to_owned()));
    v.push(("Ivy".to_owned(), "English (US) - Female (Child)".to_owned()));
    v.push(("Joanna".to_owned(), "English (US) - Female".to_owned()));
    v.push(("Kendra".to_owned(), "English (US) - Female".to_owned()));
    v.push(("Kimberly".to_owned(), "English (US) - Female".to_owned()));
    v.push(("Salli".to_owned(), "English (US) - Female".to_owned()));
    v.push(("Raveena".to_owned(), "English (Indian) - Female".to_owned()));
    v.push(("Cristiano".to_owned(), "Portuguese (European) - Male".to_owned()));
    v.push(("Ines".to_owned(), "Portuguese (European) - Female".to_owned()));
    v.push(("Vitoria".to_owned(), "Portuguese (Brazilian) - Female".to_owned()));
    v.push(("Ricardo".to_owned(), "Portuguese (Brazilian) - Male".to_owned()));
    v.push(("Mizuki".to_owned(), "Japanese - Female".to_owned()));
    v.push(("Takumi".to_owned(), "Japanese - Male".to_owned()));
    v.push(("Seoyeon".to_owned(), "Korean - Female".to_owned()));
    v.push(("Liv".to_owned(), "Norwegian - Female".to_owned()));
    v.push(("Lotte".to_owned(), "Dutch - Female".to_owned()));
    v.push(("Ruben".to_owned(), "Dutch - Male".to_owned()));
    v.push(("Jacek".to_owned(), "Polish - Male".to_owned()));
    v.push(("Jan".to_owned(), "Polish - Male".to_owned()));
    v.push(("Ewa".to_owned(), "Polish - Female".to_owned()));
    v.push(("Maja".to_owned(), "Polish - Female".to_owned()));
    v.push(("Filiz".to_owned(), "Turkish - Female".to_owned()));
    v.push(("Astrid".to_owned(), "Swedish - Female".to_owned()));
    v.push(("Maxim".to_owned(), "Russian - Male".to_owned()));
    v.push(("Tatyana".to_owned(), "Russian - Female".to_owned()));
    v.push(("Carmen".to_owned(), "Romanian - Female".to_owned()));
    v.push(("Gwyneth".to_owned(), "Welsh - Female".to_owned()));
    v.push(("Mads".to_owned(), "Danish - Male".to_owned()));
    v.push(("Naja".to_owned(), "Danish - Female".to_owned()));
    v.push(("Hans".to_owned(), "German - Male".to_owned()));
    v.push(("Marlene".to_owned(), "German - Female".to_owned()));
    v.push(("Vicki".to_owned(), "German - Female".to_owned()));
    v.push(("Karl".to_owned(), "Icelandic - Male".to_owned()));
    v.push(("Dora".to_owned(), "Icelandic - Female".to_owned()));
    v.push(("Giorgio".to_owned(), "Italian - Male".to_owned()));
    v.push(("Carla".to_owned(), "Italian - Female".to_owned()));
    v.push(("Bianca".to_owned(), "Italian - Female".to_owned()));
    v.push(("Celine".to_owned(), "French - Female".to_owned()));
    v.push(("Lea".to_owned(), "French - Female".to_owned()));
    v.push(("Mathieu".to_owned(), "French - Male".to_owned()));
    v.push(("Chantal".to_owned(), "French (Canadian) - Female".to_owned()));
    v.push(("Penelope".to_owned(), "Spanish (US) - Female".to_owned()));
    v.push(("Miguel".to_owned(), "Spanish (US) - Male".to_owned()));
    v.push(("Enrique".to_owned(), "Spanish (European) - Male".to_owned()));
    v.push(("Conchita".to_owned(), "Spanish (European) - Female".to_owned()));
    v.push(("Lucia".to_owned(), "Spanish (European) - Female".to_owned()));
    assert(pairs_view(v@) =~= voice_table());
    v
}

/// The voice's name, lowercased, equals the lowercased query.
pub open spec fn exact_match(v: (Seq<char>, Seq<char>), q: Seq<char>) -> bool {
    lowercase(v.0) == lowercase(q)
}

/// The lowercased query occurs in the voice's lowercased name or description.
pub open spec fn partial_match(v: (Seq<char>, Seq<char>), q: Seq<char>) -> bool {
    contains_seq(lowercase(v.0), lowercase(q)) || contains_seq(lowercase(v.1), lowercase(q))
}

/// The first index at or after `i` whose voice matches `q` (exactly when
/// `exact`, else partly).
pub open spec fn first_match(t: Seq<(Seq<char>, Seq<char>)>, q: Seq<char>, exact: bool, i: int) -> Option<int>
    decreases t.len() - i,
{
    if i < 0 || i >= t.len() {
        None
    } else if (if exact { exact_match(t[i], q) } else { partial_match(t[i], q) }) {
        Some(i)
    } else {
        first_match(t, q, exact, i + 1)
    }
}

/// The voice named by a query: the first whose name equals it ignoring case,
/// else the first whose name or description contains it ignoring case.
pub open spec fn find_voice_spec(q: Seq<char>) -> Option<Seq<char>> {
    let t = voice_table();
    match first_match(t, q, true, 0) {
        Some(i) => Some(t[i].0),
        None => match first_match(t, q, false, 0) {
            Some(i) => Some(t[i].0),
            None => None,
        },
    }
}

/// Index of the first voice of `t` at or after `from` that matches `q`.
fn scan_voices(t: &Vec<(String, String)>, q: &str, exact: bool) -> (r: Option<usize>)
    ensures
        match r {
            Some(i) => i < t@.len() && first_match(pairs_view(t@), q@, exact, 0) == Some(i as int),
            None => first_match(pairs_view(t@), q@, exact, 0) is None,
        },
{
    let ghost tv = pairs_view(t@);
    let ql = to_lower(q);
    let qc = chars_of(ql.as_str());
    let mut i: usize = 0;
    while i < t.len()
        invariant
            i <= t@.len(),
            tv == pairs_view(t@),
            qc@ == lowercase(q@),
            first_match(tv, q@, exact, 0) == first_match(tv, q@, exact, i as int),
        decreases t.len() - i,
    {
        let name = to_lower(t[i].0.as_str());
        let nc = chars_of(name.as_str());
        let hit = if exact {
            crate::text::chars_eq(&nc, &qc)
        } else {
            let desc = to_lower(t[i].1.as_str());
            let dc = chars_of(desc.as_str());
            contains_chars(&nc, &qc) || contains_chars(&dc, &qc)
        };
        assert(tv[i as int] == (t@[i as int].0@, t@[i as int].1@));
        if hit {
            return Some(i);
        }
        i = i + 1;
    }
    None
}

/// Finds a voice by a query: an exact name first (ignoring case), then the
/// first voice whose name or description contains the query (ignoring case).
pub fn find_voice(query: &str) -> (r: Option<String>)
    ensures
        match r {
            Some(n) => find_voice_spec(query@) == Some(n@),
            None => find_voice_spec(query@) is None,
        },
{
    let t = voices();
    match scan_voices(&t, query, true) {
        Some(i) => Some(t[i].0.clone()),
        None => match scan_voices(&t, query, false) {
            Some(i) => Some(t[i].0.clone()),
            None => None,
        },
    }
}

/// What a chat message asks of the text-to-speech plugin.
pub enum TtsCommand {
    /// Nothing: a malformed or unknown `!tts` command, or one from a user who
    /// is neither broadcaster nor moderator.
    Ignore,
    /// `!tts on`: enable auto-reading for the channel (stored in whitelist mode).
    Enable,
    /// `!tts off`: disable auto-reading (stored in whitelist mode).
    Disable,
    /// `!tts add <user>`: whitelist the user (leading `@` removed, lowercased).
    AddUser(String),
    /// `!tts remove <user>`: take the user off the whitelist.
    RemoveUser(String),
    /// `!voices [filter]`: list voices, with the filter lowercased.
    ListVoices(Option<String>),
    /// `!voice`: show the sender's voice.
    ShowVoice,
    /// `!voice <query>`: set the sender's voice by a query.
    SetVoice(String),
    /// Any other message: a candidate for auto-reading.
    Speak,
}

/// [`TtsCommand`] as plain text.
pub enum TtsCommandView {
    Ignore,
    Enable,
    Disable,
    AddUser(Seq<char>),
    RemoveUser(Seq<char>),
    ListVoices(Option<Seq<char>>),
    ShowVoice,
    SetVoice(Seq<char>),
    Speak,
}

impl View for TtsCommand {
    type V = TtsCommandView;

    open spec fn view(&self) -> TtsCommandView {
        match self {
            TtsCommand::Ignore => TtsCommandView::Ignore,
            TtsCommand::Enable => TtsCommandView::Enable,
            TtsCommand::Disable => TtsCommandView::Disable,
            TtsCommand::AddUser(u) => TtsCommandView::AddUser(u@),
            TtsCommand::RemoveUser(u) => TtsCommandView::RemoveUser(u@),
            TtsCommand::ListVoices(f) => TtsCommandView::ListVoices(
                match f {
                    Some(x) => Some(x@),
                    None => None,
                },
            ),
            TtsCommand::ShowVoice => TtsCommandView::ShowVoice,
            TtsCommand::SetVoice(q) => TtsCommandView::SetVoice(q@),
            TtsCommand::Speak => TtsCommandView::Speak,
        }
    }
}

/// The user named in a whitelist command: leading `@` removed, lowercased.
pub open spec fn whitelist_name(word: Seq<char>) -> Seq<char> {
    lowercase(trim_start_char(word, '@'))
}

/// How the plugin reads a chat message; `privileged` means broadcaster or
/// moderator.
pub open spec fn tts_command_spec(m: Seq<char>, privileged: bool) -> TtsCommandView {
    let parts = split_ws(m);
    if has_prefix(m, "!tts "@) {
        if parts.len() < 2 || !privileged {
            TtsCommandView::Ignore
        } else if parts[1] == "on"@ {
            TtsCommandView::Enable
        } else if parts[1] == "off"@ {
            TtsCommandView::Disable
        } else if parts[1] == "add"@ {
            if parts.len() < 3 {
                TtsCommandView::Ignore
            } else {
                TtsCommandView::AddUser(whitelist_name(parts[2]))
            }
        } else if parts[1] == "remove"@ {
            if parts.len() < 3 {
                TtsCommandView::Ignore
            } else {
                TtsCommandView::RemoveUser(whitelist_name(parts[2]))
            }
        } else {
            TtsCommandView::Ignore
        }
    } else if m == "!voices"@ || has_prefix(m, "!voices "@) {
        TtsCommandView::ListVoices(
            if parts.len() > 1 {
                Some(lowercase(parts[1]))
            } else {
                None
            },
        )
    } else if m == "!voice"@ || has_prefix(m, "!voice "@) {
        if parts.len() <= 1 {
            TtsCommandView::ShowVoice
        } else {
            TtsCommandView::SetVoice(join_with(parts.skip(1), " "@))
        }
    } else {
        TtsCommandView::Speak
    }
}

/// The lowercase form of the characters `v`.
fn lower_chars(v: &Vec<char>) -> (r: String)
    ensures
        r@ == lowercase(v@),
{
    let s = string_of(v);
    to_lower(s.as_str())
}

/// Reads a chat message as a text-to-speech command.
pub fn tts_command(message: &str, is_broadcaster: bool, is_mod: bool) -> (r: TtsCommand)
    ensures
        r@ == tts_command_spec(message@, is_broadcaster || is_mod),
{
    let m = chars_of(message);
    let parts = split_whitespace(&m);
    let ghost ps = split_ws(m@);
    if starts_with_str(&m, "!tts ") {
        if parts.len() < 2 || !(is_broadcaster || is_mod) {
            return TtsCommand::Ignore;
        }
        let sub = &parts[1];
        if crate::text::chars_eq_str(sub, "on") {
            TtsCommand::Enable
        } else if crate::text::chars_eq_str(sub, "off") {
            TtsCommand::Disable
        } else if crate::text::chars_eq_str(sub, "add") {
            if parts.len() < 3 {
                TtsCommand::Ignore
            } else {
                let w = strip_leading(&parts[2], '@');
                TtsCommand::AddUser(lower_chars(&w))
            }
        } else if crate::text::chars_eq_str(sub, "remove") {
            if parts.len() < 3 {
                TtsCommand::Ignore
            } else {
                let w = strip_leading(&parts[2], '@');
                TtsCommand::RemoveUser(lower_chars(&w))
            }
        } else {
            TtsCommand::Ignore
        }
    } else if crate::text::chars_eq_str(&m, "!voices") || starts_with_str(&m, "!voices ") {
        if parts.len() > 1 {
            TtsCommand::ListVoices(Some(lower_chars(&parts[1])))
        } else {
            TtsCommand::ListVoices(None)
        }
    } else if crate::text::chars_eq_str(&m, "!voice") || starts_with_str(&m, "!voice ") {
        if parts.len() <= 1 {
            TtsCommand::ShowVoice
        } else {
            let q = join_from(&parts, 1, " ");
            assert(parts@.skip(1).map_values(|p: Vec<char>| p@) =~= ps.skip(1));
            TtsCommand::SetVoice(string_of(&q))
        }
    } else {
        TtsCommand::Speak
    }
}

/// A voice passes the `!voices` filter (already lowercased): its lowercased
/// description or name contains it; every voice passes when there is none.
pub open spec fn passes_filter(v: (Seq<char>, Seq<char>), f: Option<Seq<char>>) -> bool {
    match f {
        Some(f) => contains_seq(lowercase(v.1), f) || contains_seq(lowercase(v.0), f),
        None => true,
    }
}

/// Names of the voices of `t` that pass the filter, in order.
pub open spec fn filtered_names(t: Seq<(Seq<char>, Seq<char>)>, f: Option<Seq<char>>) -> Seq<Seq<char>>
    decreases t.len(),
{
    if t.len() == 0 {
        Seq::empty()
    } else {
        let r = filtered_names(t.drop_last(), f);
        if passes_filter(t.last(), f) {
            r.push(t.last().0)
        } else {
            r
        }
    }
}

/// Messages sent so far and the message being filled, after listing `names`.
pub open spec fn chunk_state(names: Seq<Seq<char>>) -> (Seq<Seq<char>>, Seq<char>)
    decreases names.len(),
{
    if names.len() == 0 {
        (Seq::empty(), "🔊 TTS Voices: "@)
    } else {
        let prev = chunk_state(names.drop_last());
        let addition = if names.len() > 1 {
            ", "@ + names.last()
        } else {
            names.last()
        };
        if byte_len(prev.1) + byte_len(addition) > 450 {
            (prev.0.push(prev.1), "🔊 TTS Voices (cont.): "@ + names.last())
        } else {
            (prev.0, prev.1 + addition)
        }
    }
}

/// The voice names laid out in chat messages: a name goes into the current
/// message unless that would take it over 450 bytes, in which case a new
/// message is begun.
pub open spec fn voice_chunks(names: Seq<Seq<char>>) -> Seq<Seq<char>> {
    chunk_state(names).0.push(chunk_state(names).1)
}

/// The filter as text, empty when there is none.
pub open spec fn filter_text(f: Option<Seq<char>>) -> Seq<char> {
    match f {
        Some(x) => x,
        None => Seq::empty(),
    }
}

/// The chat messages that answer `!voices`: the first 20 matching names in
/// messages of at most 450 bytes (as far as one name allows) and a usage tip,
/// or a single message that nothing matched.
pub open spec fn voice_list_spec(username: Seq<char>, f: Option<Seq<char>>) -> Seq<Seq<char>> {
    let names = filtered_names(voice_table(), f);
    let shown = if names.len() > 20 {
        names.take(20)
    } else {
        names
    };
    if shown.len() == 0 {
        seq!["@"@ + username + " No voices found matching '"@ + filter_text(f) + "'"@]
    } else {
        voice_chunks(shown).push(
            "@"@ + username
                + " Use !voice <name> to set your voice. Filter: !voices english/french/male/female"@,
        )
    }
}

/// The texts of `v`.
pub open spec fn texts(v: Seq<String>) -> Seq<Seq<char>> {
    v.map_values(|s: String| s@)
}

/// Lays out `names` in chat messages (see [`voice_chunks`]).
fn chunk_names(names: &Vec<String>) -> (r: Vec<String>)
    ensures
        texts(r@) == voice_chunks(texts(names@)),
{
    let ghost ns = texts(names@);
    let mut done: Vec<String> = Vec::new();
    let mut cur = chars_of("🔊 TTS Voices: ");
    let mut i: usize = 0;
    assert(ns.take(0) =~= Seq::<Seq<char>>::empty());
    while i < names.len()
        invariant
            i <= names@.len(),
            ns == texts(names@),
            (texts(done@), cur@) == chunk_state(ns.take(i as int)),
        decreases names.len() - i,
    {
        let name = chars_of(names[i].as_str());
        let mut addition: Vec<char> = Vec::new();
        if i > 0 {
            append_str(&mut addition, ", ");
        }
        append_chars(&mut addition, &name);
        proof {
            assert(ns.take(i + 1).drop_last() =~= ns.take(i as int));
            assert(ns.take(i + 1).last() == name@);
            if i == 0 {
                assert(addition@ =~= name@);
            }
        }
        let cl = chars_byte_len(&cur);
        let al = chars_byte_len(&addition);
        if cl > 450 || al > 450 - cl {
            done.push(string_of(&cur));
            let mut next = chars_of("🔊 TTS Voices (cont.): ");
            append_chars(&mut next, &name);
            cur = next;
            assert(texts(done@) =~= chunk_state(ns.take(i as int)).0.push(chunk_state(ns.take(i as int)).1));
        } else {
            append_chars(&mut cur, &addition);
        }
        i = i + 1;
    }
    assert(ns.take(i as int) =~= ns);
    done.push(string_of(&cur));
    assert(texts(done@) =~= voice_chunks(ns));
    done
}

/// Names of the catalogue voices that pass the filter.
fn matching_names(f: &Option<String>) -> (r: Vec<String>)
    ensures
        texts(r@) == filtered_names(voice_table(), match f {
            Some(x) => Some(x@),
            None => None,
        }),
{
    let ghost fv = match f {
        Some(x) => Some(x@),
        None => None,
    };
    let t = voices();
    let ghost tv = pairs_view(t@);
    let mut out: Vec<String> = Vec::new();
    let mut i: usize = 0;
    assert(tv.take(0) =~= Seq::<(Seq<char>, Seq<char>)>::empty());
    while i < t.len()
        invariant
            i <= t@.len(),
            tv == pairs_view(t@),
            tv == voice_table(),
            fv == (match f {
                Some(x) => Some(x@),
                None => None::<Seq<char>>,
            }),
            texts(out@) == filtered_names(tv.take(i as int), fv),
        decreases t.len() - i,
    {
        let hit = match f {
            Some(x) => {
                let fc = chars_of(x.as_str());
                let d = to_lower(t[i].1.as_str());
                let dc = chars_of(d.as_str());
                let n = to_lower(t[i].0.as_str());
                let nc = chars_of(n.as_str());
                contains_chars(&dc, &fc) || contains_chars(&nc, &fc)
            },
            None => true,
        };
        assert(hit == passes_filter((t@[i as int].0@, t@[i as int].1@), fv));
        proof {
            assert(tv.take(i + 1).drop_last() =~= tv.take(i as int));
            assert(tv.take(i + 1).last() == (t@[i as int].0@, t@[i as int].1@));
        }
        if hit {
            out.push(t[i].0.clone());
            assert(texts(out@) =~= filtered_names(tv.take(i as int), fv).push(t@[i as int].0@));
        }
        i = i + 1;
    }
    assert(tv.take(i as int) =~= tv);
    out
}

/// The chat messages that answer `!voices` from `username` with the filter
/// `filter` (see [`voice_list_spec`]).
pub fn voice_list_messages(username: &str, filter: &Option<String>) -> (r: Vec<String>)
    ensures
        texts(r@) == voice_list_spec(username@, match filter {
            Some(x) => Some(x@),
            None => None,
        }),
{
    let ghost fv = match filter {
        Some(x) => Some(x@),
        None => None,
    };
    let mut names = matching_names(filter);
    if names.len() > 20 {
        names.truncate(20);
        assert(texts(names@) =~= filtered_names(voice_table(), fv).take(20));
    }
    if names.len() == 0 {
        let mut m = chars_of("@");
        append_str(&mut m, username);
        append_str(&mut m, " No voices found matching '");
        match filter {
            Some(x) => append_str(&mut m, x.as_str()),
            None => {},
        }
        append_str(&mut m, "'");
        let mut r: Vec<String> = Vec::new();
        r.push(string_of(&m));
        assert(texts(r@) =~= voice_list_spec(username@, fv));
        return r;
    }
    let mut r = chunk_names(&names);
    let mut tip = chars_of("@");
    append_str(&mut tip, username);
    append_str(&mut tip, " Use !voice <name> to set your voice. Filter: !voices english/french/male/female");
    r.push(string_of(&tip));
    assert(texts(r@) =~= voice_list_spec(username@, fv));
    r
}

/// Only the broadcaster and moderators manage text-to-speech: for anyone
/// else a message never enables, disables or edits the whitelist.
pub proof fn lemma_only_privileged_manage(m: Seq<char>)
    ensures
        !(tts_command_spec(m, false) is Enable),
        !(tts_command_spec(m, false) is Disable),
        !(tts_command_spec(m, false) is AddUser),
        !(tts_command_spec(m, false) is RemoveUser),
{
}

/// The chat confirmation of a management command, if it has one.
pub open spec fn admin_reply_spec(c: TtsCommandView) -> Option<Seq<char>> {
    match c {
        TtsCommandView::Enable => Some("TTS has been enabled!"@),
        TtsCommandView::Disable => Some("TTS has been disabled!"@),
        TtsCommandView::AddUser(u) => Some("Added "@ + u + " to TTS whitelist!"@),
        TtsCommandView::RemoveUser(u) => Some("Removed "@ + u + " from TTS whitelist!"@),
        _ => None,
    }
}

/// The chat confirmation of a management command (`!tts on|off|add|remove`).
pub fn admin_reply(c: &TtsCommand) -> (r: Option<String>)
    ensures
        crate::text::opt_str(r) == admin_reply_spec(c@),
{
    match c {
        TtsCommand::Enable => Some("TTS has been enabled!".to_owned()),
        TtsCommand::Disable => Some("TTS has been disabled!".to_owned()),
        TtsCommand::AddUser(u) => {
            let mut m = chars_of("Added ");
            append_str(&mut m, u.as_str());
            append_str(&mut m, " to TTS whitelist!");
            Some(string_of(&m))
        },
        TtsCommand::RemoveUser(u) => {
            let mut m = chars_of("Removed ");
            append_str(&mut m, u.as_str());
            append_str(&mut m, " from TTS whitelist!");
            Some(string_of(&m))
        },
        _ => None,
    }
}

/// A call to the text-to-speech service made by a management command.
pub enum ServiceCall {
    /// `update_channel_settings`: store whether auto-reading is on, and its mode.
    UpdateChannelSettings { channel: String, enabled: bool, mode: String },
    /// `add_whitelist_user`: put the user on the channel's whitelist.
    AddWhitelistUser { channel: String, username: String },
    /// `remove_whitelist_user`: take the user off it.
    RemoveWhitelistUser { channel: String, username: String },
}

/// [`ServiceCall`] as plain text.
pub enum ServiceCallView {
    UpdateChannelSettings { channel: Seq<char>, enabled: bool, mode: Seq<char> },
    AddWhitelistUser { channel: Seq<char>, username: Seq<char> },
    RemoveWhitelistUser { channel: Seq<char>, username: Seq<char> },
}

impl View for ServiceCall {
    type V = ServiceCallView;

    open spec fn view(&self) -> ServiceCallView {
        match self {
            ServiceCall::UpdateChannelSettings { channel, enabled, mode } => ServiceCallView::UpdateChannelSettings {
                channel: channel@,
                enabled: *enabled,
                mode: mode@,
            },
            ServiceCall::AddWhitelistUser { channel, username } => ServiceCallView::AddWhitelistUser {
                channel: channel@,
                username: username@,
            },
            ServiceCall::RemoveWhitelistUser { channel, username } => ServiceCallView::RemoveWhitelistUser {
                channel: channel@,
                username: username@,
            },
        }
    }
}

/// The service call of a management command in `channel`: `!tts on` and
/// `!tts off` store auto-reading on or off, in whitelist mode; `!tts add`
/// and `!tts remove` change the whitelist. Other commands make none.
pub open spec fn service_call_spec(c: TtsCommandView, channel: Seq<char>) -> Option<ServiceCallView> {
    match c {
        TtsCommandView::Enable => Some(
            ServiceCallView::UpdateChannelSettings { channel, enabled: true, mode: "whitelist"@ },
        ),
        TtsCommandView::Disable => Some(
            ServiceCallView::UpdateChannelSettings { channel, enabled: false, mode: "whitelist"@ },
        ),
        TtsCommandView::AddUser(u) => Some(ServiceCallView::AddWhitelistUser { channel, username: u }),
        TtsCommandView::RemoveUser(u) => Some(ServiceCallView::RemoveWhitelistUser { channel, username: u }),
        _ => None,
    }
}

/// The service call of a management command (see [`service_call_spec`]); it
/// is made before the confirmation of [`admin_reply`] is sent.
pub fn tts_service_call(c: &TtsCommand, channel: &str) -> (r: Option<ServiceCall>)
    ensures
        match r {
            Some(x) => service_call_spec(c@, channel@) == Some(x@),
            None => service_call_spec(c@, channel@) is None,
        },
{
    match c {
        TtsCommand::Enable => Some(
            ServiceCall::UpdateChannelSettings {
                channel: channel.to_owned(),
                enabled: true,
                mode: "whitelist".to_owned(),
            },
        ),
        TtsCommand::Disable => Some(
            ServiceCall::UpdateChannelSettings {
                channel: channel.to_owned(),
                enabled: false,
                mode: "whitelist".to_owned(),
            },
        ),
        TtsCommand::AddUser(u) => Some(
            ServiceCall::AddWhitelistUser { channel: channel.to_owned(), username: u.clone() },
        ),
        TtsCommand::RemoveUser(u) => Some(
            ServiceCall::RemoveWhitelistUser { channel: channel.to_owned(), username: u.clone() },
        ),
        _ => None,
    }
}

/// A management command both makes its service call and is confirmed in
/// chat; any other command does neither.
pub proof fn lemma_call_iff_reply(c: TtsCommandView, channel: Seq<char>)
    ensures
        service_call_spec(c, channel) is Some <==> admin_reply_spec(c) is Some,
{
}

/// The answer to `!voice`: the sender's voice, and whether they chose it.
pub open spec fn voice_status_spec(username: Seq<char>, voice: Seq<char>, has_custom: bool) -> Seq<char> {
    let status = if has_custom {
        "Your TTS voice is set to: "@ + voice
    } else {
        "You haven't set a TTS voice yet (using default: "@ + voice
            + "). Set one to enable TTS!"@
    };
    "@"@ + username + " "@ + status
        + ". Use !voice <name> to change it or !voices to see all options."@
}

/// The answer to `!voice` (see [`voice_status_spec`]).
pub fn voice_status_message(username: &str, voice: &str, has_custom: bool) -> (r: String)
    ensures
        r@ == voice_status_spec(username@, voice@, has_custom),
{
    let mut m = chars_of("@");
    append_str(&mut m, username);
    append_str(&mut m, " ");
    if has_custom {
        append_str(&mut m, "Your TTS voice is set to: ");
        append_str(&mut m, voice);
    } else {
        append_str(&mut m, "You haven't set a TTS voice yet (using default: ");
        append_str(&mut m, voice);
        append_str(&mut m, "). Set one to enable TTS!");
    }
    append_str(&mut m, ". Use !voice <name> to change it or !voices to see all options.");
    assert(m@ =~= voice_status_spec(username@, voice@, has_custom));
    string_of(&m)
}

/// The description of the first catalogue voice called `name` at or after `i`.
pub open spec fn description_from(t: Seq<(Seq<char>, Seq<char>)>, name: Seq<char>, i: int) -> Option<Seq<char>>
    decreases t.len() - i,
{
    if i < 0 || i >= t.len() {
        None
    } else if t[i].0 == name {
        Some(t[i].1)
    } else {
        description_from(t, name, i + 1)
    }
}

/// The confirmation that the sender's voice is now `voice`, with its
/// description from the catalogue (`Unknown` if it is not there).
pub open spec fn voice_set_spec(username: Seq<char>, voice: Seq<char>) -> Seq<char> {
    let desc = match description_from(voice_table(), voice, 0) {
        Some(d) => d,
        None => "Unknown"@,
    };
    "✅ @"@ + username + " Your TTS voice is now set to: "@ + voice + " ("@ + desc + ")"@
}

/// Index of the first voice of `t` called `voice`.
fn find_description(t: &Vec<(String, String)>, voice: &str) -> (r: Option<usize>)
    ensures
        match r {
            Some(k) => k < t@.len() && description_from(pairs_view(t@), voice@, 0) == Some(t@[k as int].1@),
            None => description_from(pairs_view(t@), voice@, 0) is None,
        },
{
    let ghost tv = pairs_view(t@);
    let mut i: usize = 0;
    while i < t.len()
        invariant
            i <= t@.len(),
            tv == pairs_view(t@),
            description_from(tv, voice@, 0) == description_from(tv, voice@, i as int),
        decreases t.len() - i,
    {
        assert(tv[i as int] == (t@[i as int].0@, t@[i as int].1@));
        if same_text(t[i].0.as_str(), voice) {
            return Some(i);
        }
        i = i + 1;
    }
    None
}

/// The confirmation of `!voice <query>` (see [`voice_set_spec`]).
pub fn voice_set_message(username: &str, voice: &str) -> (r: String)
    ensures
        r@ == voice_set_spec(username@, voice@),
{
    let t = voices();
    let desc = find_description(&t, voice);
    let mut m = chars_of("✅ @");
    append_str(&mut m, username);
    append_str(&mut m, " Your TTS voice is now set to: ");
    append_str(&mut m, voice);
    append_str(&mut m, " (");
    match desc {
        Some(k) => append_str(&mut m, t[k].1.as_str()),
        None => append_str(&mut m, "Unknown"),
    }
    append_str(&mut m, ")");
    assert(m@ =~= voice_set_spec(username@, voice@));
    string_of(&m)
}

/// The answer when no voice matches `!voice <query>`.
pub fn voice_not_found_message(username: &str, query: &str) -> (r: String)
    ensures
        r@ == "@"@ + username@ + " Voice '"@ + query@
            + "' not found. Use !voices to see all available voices."@,
{
    let mut m = chars_of("@");
    append_str(&mut m, username);
    append_str(&mut m, " Voice '");
    append_str(&mut m, query);
    append_str(&mut m, "' not found. Use !voices to see all available voices.");
    string_of(&m)
}

/// `username` is on the whitelist `users`.
pub fn is_whitelisted(users: &Vec<String>, username: &str) -> (r: bool)
    ensures
        r == texts(users@).contains(username@),
{
    let mut i: usize = 0;
    while i < users.len()
        invariant
            i <= users@.len(),
            forall|k: int| 0 <= k < i ==> users@[k]@ != username@,
        decreases users.len() - i,
    {
        if same_text(users[i].as_str(), username) {
            assert(texts(users@)[i as int] == username@);
            return true;
        }
        i = i + 1;
    }
    assert forall|k: int| 0 <= k < texts(users@).len() implies texts(users@)[k] != username@ by {
        assert(texts(users@)[k] == users@[k]@);
    }
    false
}

/// Whether a plain message is read aloud: only when the channel has it
/// enabled, and then by mode: `broadcaster` lets the broadcaster through,
/// `whitelist` the broadcaster, moderators and whitelisted users,
/// `everyone` anyone; any other mode nobody.
pub open spec fn auto_read_spec(enabled: bool, mode: Seq<char>, is_broadcaster: bool, is_mod: bool, whitelisted: bool) -> bool {
    if !enabled {
        false
    } else if mode == "broadcaster"@ {
        is_broadcaster
    } else if mode == "whitelist"@ {
        is_broadcaster || is_mod || whitelisted
    } else {
        mode == "everyone"@
    }
}

/// Who is read aloud: nobody while text-to-speech is off; in `whitelist`
/// mode (what `!tts on` sets) the broadcaster, every moderator and every
/// whitelisted user; in `broadcaster` mode the broadcaster alone; in
/// `everyone` mode anybody. Being the broadcaster, a moderator or
/// whitelisted never takes permission away, and the broadcaster is read in
/// every mode that reads anyone.
pub proof fn lemma_auto_read_rules(enabled: bool, mode: Seq<char>, is_broadcaster: bool, is_mod: bool, whitelisted: bool)
    ensures
        !enabled ==> !auto_read_spec(enabled, mode, is_broadcaster, is_mod, whitelisted),
        enabled && mode == "whitelist"@ ==> (auto_read_spec(enabled, mode, is_broadcaster, is_mod, whitelisted)
            <==> (is_broadcaster || is_mod || whitelisted)),
        enabled && mode == "broadcaster"@ ==> (auto_read_spec(enabled, mode, is_broadcaster, is_mod, whitelisted)
            <==> is_broadcaster),
        enabled && mode == "everyone"@ ==> auto_read_spec(enabled, mode, is_broadcaster, is_mod, whitelisted),
        auto_read_spec(enabled, mode, is_broadcaster, is_mod, whitelisted) ==> auto_read_spec(enabled, mode, true, is_mod, whitelisted),
        auto_read_spec(enabled, mode, is_broadcaster, is_mod, whitelisted) ==> auto_read_spec(enabled, mode, is_broadcaster, true, whitelisted),
        auto_read_spec(enabled, mode, is_broadcaster, is_mod, whitelisted) ==> auto_read_spec(enabled, mode, is_broadcaster, is_mod, true),
        auto_read_spec(enabled, mode, is_broadcaster, is_mod, whitelisted) ==> auto_read_spec(enabled, mode, true, false, false),
{
    reveal_strlit("whitelist");
    reveal_strlit("broadcaster");
    reveal_strlit("everyone");
    assert("whitelist"@.len() != "broadcaster"@.len());
    assert("everyone"@.len() != "broadcaster"@.len());
    assert("everyone"@.len() != "whitelist"@.len());
}

/// Whether a plain chat message is read aloud (see [`auto_read_spec`]).
pub fn auto_read_allowed(enabled: bool, mode: &str, is_broadcaster: bool, is_mod: bool, whitelisted: bool) -> (r: bool)
    ensures
        r == auto_read_spec(enabled, mode@, is_broadcaster, is_mod, whitelisted),
{
    if !enabled {
        false
    } else if same_text(mode, "broadcaster") {
        is_broadcaster
    } else if same_text(mode, "whitelist") {
        is_broadcaster || is_mod || whitelisted
    } else {
        same_text(mode, "everyone")
    }
}

/// A channel's stored text-to-speech settings, read with their defaults: a
/// channel without a row is disabled in `broadcaster` mode; a stored flag is
/// on when it is not 0.
pub fn channel_settings(row: Option<(i64, String)>) -> (r: (bool, String))
    ensures
        match row {
            Some((e, m)) => r.0 == (e != 0) && r.1@ == m@,
            None => !r.0 && r.1@ == "broadcaster"@,
        },
{
    match row {
        Some((e, m)) => (e != 0, m),
        None => (false, "broadcaster".to_owned()),
    }
}

/// ASCII letters and digits: the bytes that `NON_ALPHANUMERIC` leaves alone.
pub open spec fn is_alnum_byte(b: u8) -> bool {
    ||| (48 <= b && b <= 57)
    ||| (65 <= b && b <= 90)
    ||| (97 <= b && b <= 122)
}

/// Percent-encoding of `b` with everything but ASCII letters and digits
/// encoded as `%` and two upper-case hex digits.
pub open spec fn alnum_encoded(b: Seq<u8>) -> Seq<char>
    decreases b.len(),
{
    if b.len() == 0 {
        Seq::empty()
    } else {
        let x = b[0];
        let head = if is_alnum_byte(x) {
            seq![x as char]
        } else {
            seq!['%', hex_upper((x / 16) as int), hex_upper((x % 16) as int)]
        };
        head + alnum_encoded(b.drop_first())
    }
}

/// `percent_encoding::utf8_percent_encode(s, NON_ALPHANUMERIC)`: the UTF-8
/// bytes of `s`, each one that is not an ASCII letter or digit as `%XX`.
#[verifier::external_body]
fn encode_non_alphanumeric(s: &str) -> (r: String)
    ensures
        r@ == alnum_encoded(s.spec_bytes()),
{
    percent_encoding::utf8_percent_encode(s, percent_encoding::NON_ALPHANUMERIC).to_string()
}

/// The StreamElements address that speaks `text` in `voice` (the voice as
/// given, the text percent-encoded).
pub fn speech_url(voice: &str, text: &str) -> (r: String)
    ensures
        r@ == "https://api.streamelements.com/kappa/v2/speech?voice="@ + voice@ + "&text="@
            + alnum_encoded(text.spec_bytes()),
{
    let enc = encode_non_alphanumeric(text);
    let mut m = chars_of("https://api.streamelements.com/kappa/v2/speech?voice=");
    append_str(&mut m, voice);
    append_str(&mut m, "&text=");
    append_str(&mut m, enc.as_str());
    string_of(&m)
}

/// A message that does not start with `!` is never a command: it is only a
/// candidate for being read aloud.
pub proof fn lemma_plain_chat_is_spoken(m: Seq<char>, privileged: bool)
    requires
        m.len() == 0 || m[0] != '!',
    ensures
        tts_command_spec(m, privileged) is Speak,
{
    reveal_strlit("!tts ");
    reveal_strlit("!voices");
    reveal_strlit("!voices ");
    reveal_strlit("!voice");
    reveal_strlit("!voice ");
    if has_prefix(m, "!tts "@) {
        assert(m.take(5)[0] == m[0]);
    }
    if has_prefix(m, "!voices "@) {
        assert(m.take(8)[0] == m[0]);
    }
    if has_prefix(m, "!voice "@) {
        assert(m.take(7)[0] == m[0]);
    }
    if m == "!voices"@ {
        assert(m[0] == '!');
    }
    if m == "!voice"@ {
        assert(m[0] == '!');
    }
}

/// A viewer's stored voice, or `Brian` when they chose none.
pub fn voice_or_default(stored: Option<String>) -> (r: String)
    ensures
        r@ == (match stored {
            Some(v) => v@,
            None => "Brian"@,
        }),
{
    match stored {
        Some(v) => v,
        None => "Brian".to_owned(),
    }
}

/// Completed queue items older than an hour are cleared: the cutoff at `now`.
pub fn cleanup_cutoff(now: i64) -> (r: i64)
    requires
        now >= i64::MIN + 3600,
    ensures
        r == now - 3600,
{
    now - 3600
}

/// The queue's size as reported: pending and processing items together.
pub fn queue_total(pending: i64, processing: i64) -> (r: i64)
    requires
        i64::MIN <= pending + processing <= i64::MAX,
    ensures
        r == pending + processing,
{
    pending + processing
}

} // verus!
