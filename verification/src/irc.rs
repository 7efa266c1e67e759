//! Twitch IRC: reading chat lines and writing protocol lines.
use vstd::prelude::*;
use crate::query::KeyValues;
use crate::text::{append_chars, append_str, chars_of, contains_seq, contains_str, has_prefix, lemma_piece_prefix_is, piece_prefix, slice_chars, split_char, split_on, splitn_char, splitn_on, starts_with_str, string_of};

verus! {

/// The `key=value` tags of a chat line's tag block, in order; a tag without
/// `=` is left out.
pub open spec fn tag_entries(tags: Seq<Seq<char>>) -> Seq<(Seq<char>, Seq<char>)>
    decreases tags.len(),
{
    if tags.len() == 0 {
        Seq::empty()
    } else {
        let t = tags[0];
        let k = piece_prefix(t, '=');
        if k.len() < t.len() {
            seq![(k, t.skip(k.len() as int + 1))] + tag_entries(tags.drop_first())
        } else {
            tag_entries(tags.drop_first())
        }
    }
}

/// A line with its leading `@tags ` block taken off, and the tags of that block.
pub open spec fn split_tags(line: Seq<char>) -> (Seq<char>, Seq<(Seq<char>, Seq<char>)>) {
    if line.len() > 0 && line[0] == '@' {
        let st = line.drop_first();
        let t = piece_prefix(st, ' ');
        if t.len() < st.len() {
            (st.skip(t.len() as int + 1), tag_entries(split_on(t, ';')))
        } else {
            (st, Seq::empty())
        }
    } else {
        (line, Seq::empty())
    }
}

/// A chat line as plain text: channel, user, message and tags.
pub struct ChatLineView {
    pub channel: Seq<char>,
    pub username: Seq<char>,
    pub message: Seq<char>,
    pub tags: Seq<(Seq<char>, Seq<char>)>,
}

/// What a `PRIVMSG` line `[@tags ]:user!user@host PRIVMSG #channel :message`
/// holds, or `None` when it does not have that shape: fewer than four
/// space-separated parts, or a user part without `:`, a channel without `#`,
/// or a message without `:`.
pub open spec fn privmsg_spec(line: Seq<char>) -> Option<ChatLineView> {
    let (rest, tags) = split_tags(line);
    let parts = splitn_on(rest, ' ', 4);
    if parts.len() < 4 {
        None
    } else if !(parts[0].len() > 0 && parts[0][0] == ':') {
        None
    } else if !(parts[2].len() > 0 && parts[2][0] == '#') {
        None
    } else if !(parts[3].len() > 0 && parts[3][0] == ':') {
        None
    } else {
        Some(
            ChatLineView {
                channel: parts[2].drop_first(),
                username: piece_prefix(parts[0].drop_first(), '!'),
                message: parts[3].drop_first(),
                tags,
            },
        )
    }
}

/// A chat message read from IRC.
pub struct ChatLine {
    pub channel: String,
    pub username: String,
    pub message: String,
    pub tags: KeyValues,
}

impl ChatLine {
    pub open spec fn view(&self) -> ChatLineView {
        ChatLineView {
            channel: self.channel@,
            username: self.username@,
            message: self.message@,
            tags: self.tags.view_entries(),
        }
    }
}

/// The first index of `sep` in `v` at or after `from`, or `v.len()`.
fn find_char(v: &Vec<char>, from: usize, sep: char) -> (r: usize)
    requires
        from <= v@.len(),
    ensures
        from <= r <= v@.len(),
        forall|k: int| from <= k < r ==> v@[k] != sep,
        r < v@.len() ==> v@[r as int] == sep,
{
    let mut j = from;
    while j < v.len() && v[j] != sep
        invariant
            from <= j <= v@.len(),
            forall|k: int| from <= k < j ==> v@[k] != sep,
        decreases v.len() - j,
    {
        j = j + 1;
    }
    j
}

/// Reads the `key=value` tags of a tag block.
fn parse_tags(block: &Vec<char>) -> (r: KeyValues)
    ensures
        r.view_entries() == tag_entries(split_on(block@, ';')),
{
    let tags = split_char(block, ';');
    let mut entries: Vec<(String, String)> = Vec::new();
    let ghost all = split_on(block@, ';');
    let mut i: usize = 0;
    assert(all.skip(0) =~= all);
    assert(entries@.map_values(|e: (String, String)| (e.0@, e.1@)) =~= Seq::<
        (Seq<char>, Seq<char>),
    >::empty());
    while i < tags.len()
        invariant
            i <= tags@.len(),
            tags@.len() == all.len(),
            forall|j: int| 0 <= j < tags@.len() ==> #[trigger] tags@[j]@ == all[j],
            all == split_on(block@, ';'),
            entries@.map_values(|e: (String, String)| (e.0@, e.1@)) + tag_entries(all.skip(i as int))
                == tag_entries(all),
        decreases tags.len() - i,
    {
        let ghost rest = all.skip(i as int);
        assert(rest[0] == tags@[i as int]@);
        assert(rest.drop_first() =~= all.skip(i + 1));
        let t = &tags[i];
        let e = find_char(t, 0, '=');
        proof {
            lemma_piece_prefix_is(t@, '=', e as int);
        }
        let ghost before = entries@.map_values(|e: (String, String)| (e.0@, e.1@));
        if e < t.len() {
            let k = slice_chars(t, 0, e);
            let v = slice_chars(t, e + 1, t.len());
            assert(k@ =~= t@.take(e as int));
            assert(v@ =~= t@.skip(e + 1));
            entries.push((string_of(&k), string_of(&v)));
            assert(entries@.map_values(|e: (String, String)| (e.0@, e.1@)) =~= before.push(
                (k@, v@),
            ));
            assert(before + tag_entries(rest) =~= before.push((k@, v@)) + tag_entries(
                rest.drop_first(),
            ));
        }
        i = i + 1;
    }
    assert(all.skip(i as int) =~= Seq::<Seq<char>>::empty());
    assert(entries@.map_values(|e: (String, String)| (e.0@, e.1@)) =~= tag_entries(all));
    KeyValues { entries }
}

/// Reads a `PRIVMSG` line: the channel (without `#`), the user (the part of
/// the prefix before `!`), the message (without `:`) and the tags of a leading
/// `@` block. `None` when the line does not have that shape.
pub fn parse_privmsg(line: &str) -> (r: Option<ChatLine>)
    ensures
        r matches Some(c) ==> privmsg_spec(line@) == Some(c.view()),
        r is None ==> privmsg_spec(line@) is None,
{
    let l = chars_of(line);
    let mut tags = KeyValues { entries: Vec::new() };
    let rest: Vec<char>;
    if l.len() > 0 && l[0] == '@' {
        let st = slice_chars(&l, 1, l.len());
        assert(st@ =~= l@.drop_first());
        let pos = find_char(&st, 0, ' ');
        proof {
            lemma_piece_prefix_is(st@, ' ', pos as int);
        }
        if pos < st.len() {
            let block = slice_chars(&st, 0, pos);
            assert(block@ =~= st@.take(pos as int));
            tags = parse_tags(&block);
            rest = slice_chars(&st, pos + 1, st.len());
            assert(rest@ =~= st@.skip(pos + 1));
        } else {
            rest = st;
            assert(tags.view_entries() =~= Seq::<(Seq<char>, Seq<char>)>::empty());
        }
    } else {
        rest = l;
        assert(tags.view_entries() =~= Seq::<(Seq<char>, Seq<char>)>::empty());
    }
    assert(split_tags(line@) == (rest@, tags.view_entries()));
    let parts = splitn_char(&rest, ' ', 4);
    if parts.len() < 4 {
        return None;
    }
    if !(parts[0].len() > 0 && parts[0][0] == ':') {
        return None;
    }
    if !(parts[2].len() > 0 && parts[2][0] == '#') {
        return None;
    }
    if !(parts[3].len() > 0 && parts[3][0] == ':') {
        return None;
    }
    let user_part = slice_chars(&parts[0], 1, parts[0].len());
    let bang = find_char(&user_part, 0, '!');
    proof {
        lemma_piece_prefix_is(user_part@, '!', bang as int);
    }
    let username = slice_chars(&user_part, 0, bang);
    let channel = slice_chars(&parts[2], 1, parts[2].len());
    let message = slice_chars(&parts[3], 1, parts[3].len());
    proof {
        assert(user_part@ =~= parts@[0]@.drop_first());
        assert(username@ =~= user_part@.take(bang as int));
        assert(channel@ =~= parts@[2]@.drop_first());
        assert(message@ =~= parts@[3]@.drop_first());
    }
    Some(
        ChatLine {
            channel: string_of(&channel),
            username: string_of(&username),
            message: string_of(&message),
            tags,
        },
    )
}

/// What the client does with one line from the server.
pub enum IrcEvent {
    /// Answer a `PING` with this line.
    Reply(String),
    /// A chat message arrived.
    Chat(ChatLine),
    /// Nothing to do.
    Ignore,
}

/// The protocol line `text` followed by CR LF.
pub open spec fn crlf(text: Seq<char>) -> Seq<char> {
    text + seq!['\r', '\n']
}

/// How a line from the server is handled: `PING <server>` is answered with
/// `PONG <server>`; a line containing `PRIVMSG` that reads as a chat message is
/// passed on; anything else is ignored.
pub fn handle_line(line: &str) -> (r: IrcEvent)
    ensures
        ({
            let l = line@;
            if has_prefix(l, "PING "@) {
                r matches IrcEvent::Reply(s) && s@ == crlf("PONG "@ + l.skip(5))
            } else if contains_seq(l, "PRIVMSG"@) && privmsg_spec(l) is Some {
                r matches IrcEvent::Chat(c) && privmsg_spec(l) == Some(c.view())
            } else {
                r is Ignore
            }
        }),
{
    let l = chars_of(line);
    proof {
        reveal_strlit("PING ");
        reveal_strlit("PONG ");
        reveal_strlit("PRIVMSG");
    }
    if starts_with_str(&l, "PING ") {
        let server = slice_chars(&l, 5, l.len());
        let mut out = chars_of("PONG ");
        append_chars(&mut out, &server);
        out.push('\r');
        out.push('\n');
        assert(server@ =~= l@.skip(5));
        assert(out@ =~= crlf("PONG "@ + l@.skip(5)));
        return IrcEvent::Reply(string_of(&out));
    }
    if contains_str(&l, "PRIVMSG") {
        match parse_privmsg(line) {
            Some(c) => IrcEvent::Chat(c),
            None => IrcEvent::Ignore,
        }
    } else {
        IrcEvent::Ignore
    }
}

/// `prefix + value + CR LF` as a protocol line.
fn line_with(prefix: &str, value: &str) -> (r: String)
    ensures
        r@ == crlf(prefix@ + value@),
{
    let mut out = chars_of(prefix);
    append_str(&mut out, value);
    out.push('\r');
    out.push('\n');
    assert(out@ =~= crlf(prefix@ + value@));
    string_of(&out)
}

/// The login line `PASS oauth:<token>`.
pub fn pass_line(token: &str) -> (r: String)
    ensures
        r@ == crlf("PASS oauth:"@ + token@),
{
    line_with("PASS oauth:", token)
}

/// The nickname line `NICK <username>`.
pub fn nick_line(username: &str) -> (r: String)
    ensures
        r@ == crlf("NICK "@ + username@),
{
    line_with("NICK ", username)
}

/// The capability request for membership, tags and commands.
pub fn capabilities_line() -> (r: String)
    ensures
        r@ == crlf("CAP REQ :twitch.tv/membership twitch.tv/tags twitch.tv/commands"@),
{
    let r = line_with("CAP REQ :twitch.tv/membership twitch.tv/tags twitch.tv/commands", "");
    proof {
        reveal_strlit("");
        assert("CAP REQ :twitch.tv/membership twitch.tv/tags twitch.tv/commands"@ + ""@
            =~= "CAP REQ :twitch.tv/membership twitch.tv/tags twitch.tv/commands"@);
    }
    r
}

/// The line that joins `#<channel>`.
pub fn join_line(channel: &str) -> (r: String)
    ensures
        r@ == crlf("JOIN #"@ + channel@),
{
    line_with("JOIN #", channel)
}

/// The line that sends `message` to `#<channel>`.
pub fn privmsg_line(channel: &str, message: &str) -> (r: String)
    ensures
        r@ == crlf("PRIVMSG #"@ + channel@ + " :"@ + message@),
{
    let mut out = chars_of("PRIVMSG #");
    append_str(&mut out, channel);
    append_str(&mut out, " :");
    append_str(&mut out, message);
    out.push('\r');
    out.push('\n');
    assert(out@ =~= crlf("PRIVMSG #"@ + channel@ + " :"@ + message@));
    string_of(&out)
}

/// How a raw line from the socket is handled: trimmed, ignored when empty,
/// else as [`handle_line`] handles it.
pub fn handle_received(raw: &str) -> (r: IrcEvent)
    ensures
        ({
            let l = crate::text::trim_spec(raw@);
            if l.len() == 0 {
                r is Ignore
            } else if has_prefix(l, "PING "@) {
                r matches IrcEvent::Reply(s) && s@ == crlf("PONG "@ + l.skip(5))
            } else if contains_seq(l, "PRIVMSG"@) && privmsg_spec(l) is Some {
                r matches IrcEvent::Chat(c) && privmsg_spec(l) == Some(c.view())
            } else {
                r is Ignore
            }
        }),
{
    let c = chars_of(raw);
    let t = crate::text::trim(&c);
    if t.len() == 0 {
        return IrcEvent::Ignore;
    }
    let s = string_of(&t);
    handle_line(s.as_str())
}

/// A chat message as it is stored.
pub struct ChatRecord {
    /// 1 for a `/me` action (a message starting with `\u{1}ACTION`), else 0.
    pub is_action: i64,
    pub color: String,
    pub display_name: String,
    pub user_id: String,
    pub badges: String,
    pub emotes: String,
}

/// A tag's value, or a default.
pub open spec fn tag_or(entries: Seq<(Seq<char>, Seq<char>)>, key: Seq<char>, d: Seq<char>) -> Seq<char> {
    match crate::query::last_value(entries, key) {
        Some(v) => v,
        None => d,
    }
}

fn tag_value_or(tags: &KeyValues, key: &str, d: &str) -> (r: String)
    ensures
        r@ == tag_or(tags.view_entries(), key@, d@),
{
    match tags.get(key) {
        Some(v) => v,
        None => d.to_owned(),
    }
}

/// What is stored for a chat message: whether it is an action, and the
/// colour, display name (the user name when the tag is missing), user id,
/// badges and emotes from its tags (empty when missing).
pub fn chat_record(c: &ChatLine) -> (r: ChatRecord)
    ensures
        r.is_action == (if has_prefix(c.message@, "\u{1}ACTION"@) { 1int } else { 0int }),
        r.color@ == tag_or(c.tags.view_entries(), "color"@, Seq::empty()),
        r.display_name@ == tag_or(c.tags.view_entries(), "display-name"@, c.username@),
        r.user_id@ == tag_or(c.tags.view_entries(), "user-id"@, Seq::empty()),
        r.badges@ == tag_or(c.tags.view_entries(), "badges"@, Seq::empty()),
        r.emotes@ == tag_or(c.tags.view_entries(), "emotes"@, Seq::empty()),
{
    let m = chars_of(c.message.as_str());
    let is_action: i64 = if starts_with_str(&m, "\u{1}ACTION") {
        1
    } else {
        0
    };
    proof {
        reveal_strlit("");
    }
    ChatRecord {
        is_action,
        color: tag_value_or(&c.tags, "color", ""),
        display_name: tag_value_or(&c.tags, "display-name", c.username.as_str()),
        user_id: tag_value_or(&c.tags, "user-id", ""),
        badges: tag_value_or(&c.tags, "badges", ""),
        emotes: tag_value_or(&c.tags, "emotes", ""),
    }
}

/// Cutting `a + sep + b` at the first `sep` gives `a` and leaves `b`.
proof fn lemma_cut_at(a: Seq<char>, b: Seq<char>, sep: char)
    requires
        forall|k: int| 0 <= k < a.len() ==> a[k] != sep,
    ensures
        piece_prefix(a + seq![sep] + b, sep) == a,
        (a + seq![sep] + b).skip(a.len() as int + 1) == b,
        piece_prefix(a + seq![sep] + b, sep).len() < (a + seq![sep] + b).len(),
{
    let s = a + seq![sep] + b;
    lemma_piece_prefix_is(s, sep, a.len() as int);
    assert(s.take(a.len() as int) =~= a);
    assert(s.skip(a.len() as int + 1) =~= b);
}

/// A chat line in the documented shape
/// `:user!user@host PRIVMSG #channel :message` reads back as its channel,
/// user and message, with no tags, whatever the message holds.
pub proof fn lemma_privmsg_reads_back(user: Seq<char>, host: Seq<char>, channel: Seq<char>, message: Seq<char>)
    requires
        forall|k: int| 0 <= k < user.len() ==> user[k] != ' ' && user[k] != '!',
        forall|k: int| 0 <= k < host.len() ==> host[k] != ' ',
        forall|k: int| 0 <= k < channel.len() ==> channel[k] != ' ',
    ensures
        privmsg_spec(":"@ + user + "!"@ + host + " PRIVMSG #"@ + channel + " :"@ + message) == Some(
            ChatLineView { channel, username: user, message, tags: Seq::empty() },
        ),
{
    reveal_strlit(":");
    reveal_strlit("!");
    reveal_strlit(" PRIVMSG #");
    reveal_strlit(" :");
    reveal_strlit("PRIVMSG");
    let line = ":"@ + user + "!"@ + host + " PRIVMSG #"@ + channel + " :"@ + message;
    let p0 = seq![':'] + user + seq!['!'] + host;
    let p1 = "PRIVMSG"@;
    let p2 = seq!['#'] + channel;
    let p3 = seq![':'] + message;
    let r2 = p2 + seq![' '] + p3;
    let r1 = p1 + seq![' '] + r2;
    assert(line =~= p0 + seq![' '] + r1);
    assert forall|k: int| 0 <= k < p0.len() implies p0[k] != ' ' by {
        if 1 <= k < 1 + user.len() {
            assert(p0[k] == user[k - 1]);
        } else if k > 1 + user.len() {
            assert(p0[k] == host[k - 2 - user.len()]);
        }
    }
    assert forall|k: int| 0 <= k < p2.len() implies p2[k] != ' ' by {
        if k >= 1 {
            assert(p2[k] == channel[k - 1]);
        }
    }
    lemma_cut_at(p0, r1, ' ');
    lemma_cut_at(p1, r2, ' ');
    lemma_cut_at(p2, p3, ' ');
    assert(split_tags(line) == (line, Seq::<(Seq<char>, Seq<char>)>::empty()));
    assert(splitn_on(r2, ' ', 2) == seq![p2] + splitn_on(p3, ' ', 1));
    assert(splitn_on(p3, ' ', 1) == seq![p3]);
    assert(splitn_on(r1, ' ', 3) == seq![p1] + splitn_on(r2, ' ', 2));
    assert(splitn_on(line, ' ', 4) == seq![p0] + splitn_on(r1, ' ', 3));
    let parts = splitn_on(line, ' ', 4);
    assert(parts =~= seq![p0, p1, p2, p3]);
    let up = p0.drop_first();
    assert(up =~= user + seq!['!'] + host);
    lemma_cut_at(user, host, '!');
    assert(p2.drop_first() =~= channel);
    assert(p3.drop_first() =~= message);
}

} // verus!
