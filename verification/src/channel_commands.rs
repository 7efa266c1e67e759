//! Moderator chat commands that edit the channel: `!settitle` and
//! `!setcategory` (or `!setgame`).
use vstd::prelude::*;
use crate::text::{
    append_str, chars_of, has_prefix, slice_chars, starts_with_str, string_of, trim, trim_spec,
};

verus! {

/// What a chat message asks of the channel commands.
pub enum ChannelCommand {
    /// Not a channel command, or not from the broadcaster or a moderator.
    Ignore,
    /// `!settitle` without a title: answer with its usage.
    TitleUsage,
    /// `!settitle <title>`: set the stream title.
    SetTitle(String),
    /// `!setcategory`/`!setgame` without a name: answer with its usage.
    CategoryUsage,
    /// `!setcategory <name>`/`!setgame <name>`: look the category up and set it.
    SetCategory(String),
}

/// [`ChannelCommand`] as plain text.
pub enum ChannelCommandView {
    Ignore,
    TitleUsage,
    SetTitle(Seq<char>),
    CategoryUsage,
    SetCategory(Seq<char>),
}

impl View for ChannelCommand {
    type V = ChannelCommandView;

    open spec fn view(&self) -> ChannelCommandView {
        match self {
            ChannelCommand::Ignore => ChannelCommandView::Ignore,
            ChannelCommand::TitleUsage => ChannelCommandView::TitleUsage,
            ChannelCommand::SetTitle(t) => ChannelCommandView::SetTitle(t@),
            ChannelCommand::CategoryUsage => ChannelCommandView::CategoryUsage,
            ChannelCommand::SetCategory(c) => ChannelCommandView::SetCategory(c@),
        }
    }
}

/// How a message is read: only the broadcaster and moderators are heard; the
/// argument is the rest of the message after the command and its space,
/// trimmed.
pub open spec fn channel_command_spec(m: Seq<char>, privileged: bool) -> ChannelCommandView {
    if !privileged {
        ChannelCommandView::Ignore
    } else if has_prefix(m, "!settitle "@) {
        let t = trim_spec(m.skip(10));
        if t.len() == 0 {
            ChannelCommandView::TitleUsage
        } else {
            ChannelCommandView::SetTitle(t)
        }
    } else if has_prefix(m, "!setcategory "@) || has_prefix(m, "!setgame "@) {
        let c = trim_spec(
            m.skip(
                if has_prefix(m, "!setcategory "@) {
                    13
                } else {
                    9
                },
            ),
        );
        if c.len() == 0 {
            ChannelCommandView::CategoryUsage
        } else {
            ChannelCommandView::SetCategory(c)
        }
    } else {
        ChannelCommandView::Ignore
    }
}

/// Reads a chat message as a channel command (see [`channel_command_spec`]).
pub fn channel_command(message: &str, is_broadcaster: bool, is_mod: bool) -> (r: ChannelCommand)
    ensures
        r@ == channel_command_spec(message@, is_broadcaster || is_mod),
{
    if !is_broadcaster && !is_mod {
        return ChannelCommand::Ignore;
    }
    let m = chars_of(message);
    proof {
        reveal_strlit("!settitle ");
        reveal_strlit("!setcategory ");
        reveal_strlit("!setgame ");
    }
    if starts_with_str(&m, "!settitle ") {
        let rest = slice_chars(&m, 10, m.len());
        assert(rest@ =~= m@.skip(10));
        let t = trim(&rest);
        if t.len() == 0 {
            ChannelCommand::TitleUsage
        } else {
            ChannelCommand::SetTitle(string_of(&t))
        }
    } else {
        let long = starts_with_str(&m, "!setcategory ");
        if long || starts_with_str(&m, "!setgame ") {
            let skip: usize = if long {
                13
            } else {
                9
            };
            let rest = slice_chars(&m, skip, m.len());
            assert(rest@ =~= m@.skip(skip as int));
            let c = trim(&rest);
            if c.len() == 0 {
                ChannelCommand::CategoryUsage
            } else {
                ChannelCommand::SetCategory(string_of(&c))
            }
        } else {
            ChannelCommand::Ignore
        }
    }
}

/// What the category search gave.
pub enum CategorySearch {
    /// The response had no `data` list.
    Invalid,
    /// No category matched, or the first match had no id.
    NotFound,
    /// The id of the first match.
    Found(String),
}

/// Reads a category search: `data` is the `data` list of the response, if
/// it had one, with the `id` of each entry, if it had one.
pub fn category_search(data: Option<Vec<Option<String>>>) -> (r: CategorySearch)
    ensures
        match data {
            None => r is Invalid,
            Some(d) => if d@.len() == 0 {
                r is NotFound
            } else {
                match d@[0] {
                    Some(id) => r matches CategorySearch::Found(x) && x@ == id@,
                    None => r is NotFound,
                }
            },
        },
{
    match data {
        None => CategorySearch::Invalid,
        Some(d) => {
            if d.len() == 0 {
                CategorySearch::NotFound
            } else {
                match &d[0] {
                    Some(id) => CategorySearch::Found(id.clone()),
                    None => CategorySearch::NotFound,
                }
            }
        },
    }
}

/// The change asked of the channel: a field left `None` stays as it is.
pub struct ChannelUpdate {
    pub title: Option<String>,
    pub category_id: Option<String>,
}

/// The update for `!settitle`: the new title, the category unchanged.
pub fn title_update(title: &str) -> (r: ChannelUpdate)
    ensures
        r.title matches Some(t) && t@ == title@,
        r.category_id is None,
{
    ChannelUpdate { title: Some(title.to_owned()), category_id: None }
}

/// What the chat is told about a channel command.
pub enum ChannelReply {
    TitleUsage,
    CategoryUsage,
    NoBroadcaster,
    NoCredentials,
    TitleUpdated,
    /// Updating the title failed with this error text.
    TitleFailed(String),
    /// No category matches this name.
    CategoryNotFound(String),
    /// The search response was not readable.
    SearchInvalid,
    /// The search failed with this error text.
    SearchFailed(String),
    /// The category is now this name.
    CategoryUpdated(String),
    /// Updating the category failed with this error text.
    CategoryFailed(String),
}

/// The text after `@user ` for each reply.
pub open spec fn reply_text(r: ChannelReply) -> Seq<char> {
    match r {
        ChannelReply::TitleUsage => "Usage: !settitle <new title>"@,
        ChannelReply::CategoryUsage => "Usage: !setcategory <game/category name>"@,
        ChannelReply::NoBroadcaster => "Failed to get broadcaster info"@,
        ChannelReply::NoCredentials => "Failed to get API credentials"@,
        ChannelReply::TitleUpdated => "Title updated successfully!"@,
        ChannelReply::TitleFailed(e) => "Failed to update title: "@ + e@,
        ChannelReply::CategoryNotFound(c) => "Category '"@ + c@ + "' not found"@,
        ChannelReply::SearchInvalid => "Failed to search for category"@,
        ChannelReply::SearchFailed(e) => "Failed to search for category: "@ + e@,
        ChannelReply::CategoryUpdated(c) => "Category updated to '"@ + c@ + "'!"@,
        ChannelReply::CategoryFailed(e) => "Failed to update category: "@ + e@,
    }
}

/// The chat message `@<username> <reply>`.
pub fn channel_reply(username: &str, reply: &ChannelReply) -> (r: String)
    ensures
        r@ == "@"@ + username@ + " "@ + reply_text(*reply),
{
    let mut m = chars_of("@");
    append_str(&mut m, username);
    append_str(&mut m, " ");
    match reply {
        ChannelReply::TitleUsage => append_str(&mut m, "Usage: !settitle <new title>"),
        ChannelReply::CategoryUsage => append_str(&mut m, "Usage: !setcategory <game/category name>"),
        ChannelReply::NoBroadcaster => append_str(&mut m, "Failed to get broadcaster info"),
        ChannelReply::NoCredentials => append_str(&mut m, "Failed to get API credentials"),
        ChannelReply::TitleUpdated => append_str(&mut m, "Title updated successfully!"),
        ChannelReply::TitleFailed(e) => {
            append_str(&mut m, "Failed to update title: ");
            append_str(&mut m, e.as_str());
        },
        ChannelReply::CategoryNotFound(c) => {
            append_str(&mut m, "Category '");
            append_str(&mut m, c.as_str());
            append_str(&mut m, "' not found");
        },
        ChannelReply::SearchInvalid => append_str(&mut m, "Failed to search for category"),
        ChannelReply::SearchFailed(e) => {
            append_str(&mut m, "Failed to search for category: ");
            append_str(&mut m, e.as_str());
        },
        ChannelReply::CategoryUpdated(c) => {
            append_str(&mut m, "Category updated to '");
            append_str(&mut m, c.as_str());
            append_str(&mut m, "'!");
        },
        ChannelReply::CategoryFailed(e) => {
            append_str(&mut m, "Failed to update category: ");
            append_str(&mut m, e.as_str());
        },
    }
    assert(m@ =~= "@"@ + username@ + " "@ + reply_text(*reply));
    string_of(&m)
}

/// After the category search for `name`: the first match's id becomes the
/// channel's category, with the title left unchanged; otherwise the reply
/// that the category was not found, or that the search answer was not
/// readable, and the channel is not touched.
pub fn category_update(name: &str, search: CategorySearch) -> (r: Result<ChannelUpdate, ChannelReply>)
    ensures
        match search {
            CategorySearch::Found(id) => r matches Ok(u) && u.title is None
                && (u.category_id matches Some(c) && c@ == id@),
            CategorySearch::NotFound => r matches Err(ChannelReply::CategoryNotFound(n)) && n@ == name@,
            CategorySearch::Invalid => r matches Err(ChannelReply::SearchInvalid),
        },
{
    match search {
        CategorySearch::Found(id) => Ok(ChannelUpdate { title: None, category_id: Some(id) }),
        CategorySearch::NotFound => Err(ChannelReply::CategoryNotFound(name.to_owned())),
        CategorySearch::Invalid => Err(ChannelReply::SearchInvalid),
    }
}

/// Only the broadcaster and moderators edit the channel: anyone else's
/// message is ignored.
pub proof fn lemma_unprivileged_ignored(m: Seq<char>)
    ensures
        channel_command_spec(m, false) is Ignore,
{
}

} // verus!
