//! Overlay layouts served as HTML pages, and the Discord bot's commands.
use vstd::prelude::*;
use crate::query::{url_decode, url_decoded};
use crate::text::{
    append_chars, append_str, chars_of, decimal, lowercase, push_decimal_i64, same_text,
    split_whitespace, split_ws, string_of, strip_prefixes, strip_prefixes_of, to_lower, trim,
    trim_spec, has_prefix, starts_with_str, slice_chars,
};

verus! {

/// Why a layout page could not be named.
#[derive(PartialEq, Eq, Structural, Clone, Copy, Debug)]
pub enum LayoutNameError {
    /// "Missing layout name".
    Missing,
    /// "Invalid layout name": the name does not decode.
    Invalid,
}

/// The layout a page path names: the path with `/layout/` taken off as
/// often as it is there, then percent-decoded.
pub fn layout_name(path: &str) -> (r: Result<String, LayoutNameError>)
    ensures
        ({
            let raw = strip_prefixes(path@, "/layout/"@);
            if raw.len() == 0 {
                r is Err && r->Err_0 == LayoutNameError::Missing
            } else {
                match url_decoded(raw) {
                    Some(d) => r matches Ok(n) && n@ == d,
                    None => r is Err && r->Err_0 == LayoutNameError::Invalid,
                }
            }
        }),
{
    let p = chars_of(path);
    let raw = strip_prefixes_of(&p, "/layout/");
    if raw.len() == 0 {
        return Err(LayoutNameError::Missing);
    }
    match url_decode(&raw) {
        Some(d) => Ok(string_of(&d)),
        None => Err(LayoutNameError::Invalid),
    }
}

/// One overlay of a layout, as stored (absent or mistyped fields `None`).
pub struct OverlayBox {
    pub kind: Option<String>,
    pub x: Option<i64>,
    pub y: Option<i64>,
    pub width: Option<i64>,
    pub height: Option<i64>,
    pub z_index: Option<i64>,
}

/// A number or its default.
pub open spec fn or_num(o: Option<i64>, d: i64) -> i64 {
    match o {
        Some(x) => x,
        None => d,
    }
}

/// The frame that places an overlay: kind `unknown`, position 0,0, size
/// 400 by 300 and layer 1 unless the overlay says otherwise.
pub open spec fn iframe_spec(o: OverlayBox) -> Seq<char> {
    let kind = match o.kind {
        Some(k) => k@,
        None => "unknown"@,
    };
    "<iframe src=\"/overlay/"@ + kind + "\" style=\"position: absolute; left: "@
        + decimal(or_num(o.x, 0) as int) + "px; top: "@ + decimal(or_num(o.y, 0) as int)
        + "px; width: "@ + decimal(or_num(o.width, 400) as int) + "px; height: "@
        + decimal(or_num(o.height, 300) as int) + "px; z-index: "@ + decimal(
        or_num(o.z_index, 1) as int,
    ) + "; border: none; background: transparent;\"></iframe>"@
}

/// The frame that places an overlay (see [`iframe_spec`]).
pub fn overlay_iframe(o: &OverlayBox) -> (r: String)
    ensures
        r@ == iframe_spec(*o),
{
    let mut m = chars_of("<iframe src=\"/overlay/");
    match &o.kind {
        Some(k) => append_str(&mut m, k.as_str()),
        None => append_str(&mut m, "unknown"),
    }
    append_str(&mut m, "\" style=\"position: absolute; left: ");
    push_decimal_i64(&mut m, match o.x { Some(x) => x, None => 0 });
    append_str(&mut m, "px; top: ");
    push_decimal_i64(&mut m, match o.y { Some(x) => x, None => 0 });
    append_str(&mut m, "px; width: ");
    push_decimal_i64(&mut m, match o.width { Some(x) => x, None => 400 });
    append_str(&mut m, "px; height: ");
    push_decimal_i64(&mut m, match o.height { Some(x) => x, None => 300 });
    append_str(&mut m, "px; z-index: ");
    push_decimal_i64(&mut m, match o.z_index { Some(x) => x, None => 1 });
    append_str(&mut m, "; border: none; background: transparent;\"></iframe>");
    assert(m@ =~= iframe_spec(*o));
    string_of(&m)
}

/// The frames of all overlays, one after the other.
pub open spec fn frames_spec(v: Seq<OverlayBox>) -> Seq<char>
    decreases v.len(),
{
    if v.len() == 0 {
        Seq::empty()
    } else {
        frames_spec(v.drop_last()) + iframe_spec(v.last())
    }
}

/// The start of a layout page, up to its title.
pub open spec fn page_head() -> Seq<char> {
    "<!DOCTYPE html>\n<html lang=\"en\" style=\"background: transparent !important;\">\n<head>\n  <meta charset=\"UTF-8\">\n  <meta name=\"viewport\" content=\"width=device-width, initial-scale=1.0\">\n  <title>"@
}

/// The page between the title and the frames.
pub open spec fn page_middle() -> Seq<char> {
    "</title>\n  <style>\n    * {\n      box-sizing: border-box;\n    }\n    html, body {\n      margin: 0 !important;\n      padding: 0 !important;\n      width: 1920px !important;\n      height: 1080px !important;\n      background-color: transparent !important;\n      overflow: hidden !important;\n      -webkit-font-smoothing: antialiased;\n    }\n    body {\n      position: relative;\n    }\n  </style>\n</head>\n<body>\n  "@
}

/// The end of a layout page.
pub open spec fn page_tail() -> Seq<char> {
    "\n</body>\n</html>"@
}

/// A layout page: a transparent 1920 by 1080 page titled with the layout's
/// name that holds one frame per overlay.
pub open spec fn layout_page_spec(name: Seq<char>, overlays: Seq<OverlayBox>) -> Seq<char> {
    page_head() + name + page_middle() + frames_spec(overlays) + page_tail()
}

/// The layout page (see [`layout_page_spec`]).
pub fn layout_page(name: &str, overlays: &Vec<OverlayBox>) -> (r: String)
    ensures
        r@ == layout_page_spec(name@, overlays@),
{
    let mut frames: Vec<char> = Vec::new();
    let mut i: usize = 0;
    assert(overlays@.take(0) =~= Seq::<OverlayBox>::empty());
    while i < overlays.len()
        invariant
            i <= overlays@.len(),
            frames@ == frames_spec(overlays@.take(i as int)),
        decreases overlays.len() - i,
    {
        let f = overlay_iframe(&overlays[i]);
        append_str(&mut frames, f.as_str());
        assert(overlays@.take(i + 1).drop_last() =~= overlays@.take(i as int));
        i = i + 1;
    }
    assert(overlays@.take(i as int) =~= overlays@);
    let mut m = chars_of("<!DOCTYPE html>\n<html lang=\"en\" style=\"background: transparent !important;\">\n<head>\n  <meta charset=\"UTF-8\">\n  <meta name=\"viewport\" content=\"width=device-width, initial-scale=1.0\">\n  <title>");
    append_str(&mut m, name);
    append_str(&mut m, "</title>\n  <style>\n    * {\n      box-sizing: border-box;\n    }\n    html, body {\n      margin: 0 !important;\n      padding: 0 !important;\n      width: 1920px !important;\n      height: 1080px !important;\n      background-color: transparent !important;\n      overflow: hidden !important;\n      -webkit-font-smoothing: antialiased;\n    }\n    body {\n      position: relative;\n    }\n  </style>\n</head>\n<body>\n  ");
    append_chars(&mut m, &frames);
    append_str(&mut m, "\n</body>\n</html>");
    assert(m@ =~= layout_page_spec(name@, overlays@));
    string_of(&m)
}

/// What a Discord message asks of the bot.
pub enum DiscordCommand {
    /// Not for the bot: from a bot, without the prefix, or without a word.
    Ignore,
    /// `ping`: answer `Pong!`.
    Ping,
    /// `help`: list the commands.
    Help,
    /// `info`: describe the bot.
    Info,
    /// Any other word: look it up among the custom commands.
    Custom(String),
}

/// How the bot reads a message: from a person, starting with the prefix;
/// the first word after it, trimmed, names the command (ignoring case for
/// the built-in ones).
pub open spec fn discord_command_spec(content: Seq<char>, prefix: Seq<char>, from_bot: bool) -> Option<Seq<char>> {
    if from_bot || !has_prefix(content, prefix) {
        None
    } else {
        let words = split_ws(trim_spec(content.skip(prefix.len() as int)));
        if words.len() == 0 {
            None
        } else {
            Some(words[0])
        }
    }
}

/// Reads a Discord message (see [`discord_command_spec`]).
pub fn discord_command(content: &str, prefix: &str, from_bot: bool) -> (r: DiscordCommand)
    ensures
        match discord_command_spec(content@, prefix@, from_bot) {
            None => r is Ignore,
            Some(w) => if lowercase(w) == "ping"@ {
                r is Ping
            } else if lowercase(w) == "help"@ {
                r is Help
            } else if lowercase(w) == "info"@ {
                r is Info
            } else {
                r matches DiscordCommand::Custom(c) && c@ == w
            },
        },
{
    if from_bot {
        return DiscordCommand::Ignore;
    }
    let c = chars_of(content);
    if !starts_with_str(&c, prefix) {
        return DiscordCommand::Ignore;
    }
    let pc = chars_of(prefix);
    let rest = slice_chars(&c, pc.len(), c.len());
    assert(rest@ =~= content@.skip(prefix@.len() as int));
    let t = trim(&rest);
    let words = split_whitespace(&t);
    if words.len() == 0 {
        return DiscordCommand::Ignore;
    }
    let w = string_of(&words[0]);
    let l = to_lower(w.as_str());
    let ls = l.as_str();
    if same_text(ls, "ping") {
        DiscordCommand::Ping
    } else if same_text(ls, "help") {
        DiscordCommand::Help
    } else if same_text(ls, "info") {
        DiscordCommand::Info
    } else {
        DiscordCommand::Custom(w)
    }
}

/// The bot's fixed answers.
pub fn discord_reply(c: &DiscordCommand) -> (r: Option<String>)
    ensures
        match c {
            DiscordCommand::Ping => r matches Some(s) && s@ == "Pong!"@,
            DiscordCommand::Help => r matches Some(s) && s@ == "**Available Commands:**\n• `!ping` - Check if bot is responsive\n• `!help` - Show this help message\n• `!info` - Show bot information"@,
            DiscordCommand::Info => r matches Some(s) && s@ == "**WebArcade Discord Bot**\nA general-purpose Discord bot for your server.\nConfigure me through the WebArcade dashboard!"@,
            _ => r is None,
        },
{
    match c {
        DiscordCommand::Ping => Some("Pong!".to_owned()),
        DiscordCommand::Help => Some("**Available Commands:**\n• `!ping` - Check if bot is responsive\n• `!help` - Show this help message\n• `!info` - Show bot information".to_owned()),
        DiscordCommand::Info => Some("**WebArcade Discord Bot**\nA general-purpose Discord bot for your server.\nConfigure me through the WebArcade dashboard!".to_owned()),
        _ => None,
    }
}

} // verus!
