//! The database plugin's query console and the text commands' lookups.
use vstd::prelude::*;
use crate::text::{
    append_str, chars_of, has_prefix, push_decimal_u64, decimal_nat, split_whitespace, split_ws,
    starts_with_str, string_of, trim_start, trim_start_spec,
};

verus! {

/// What `str::to_uppercase` gives for `s`: the Unicode uppercase mapping,
/// a function of the text alone.
pub uninterp spec fn uppercase(s: Seq<char>) -> Seq<char>;

/// `str::to_uppercase`: the result is named by [`uppercase`] of the argument.
#[verifier::external_body]
fn to_upper(s: &str) -> (r: String)
    ensures
        r@ == uppercase(s@),
{
    s.to_uppercase()
}

/// A console query reads rather than writes when, with leading whitespace
/// taken off and uppercased, it begins with `SELECT` or `PRAGMA`.
pub open spec fn is_read_query_spec(q: Seq<char>) -> bool {
    let u = uppercase(trim_start_spec(q));
    has_prefix(u, "SELECT"@) || has_prefix(u, "PRAGMA"@)
}

/// Whether a console query is run as a read (see [`is_read_query_spec`]).
pub fn is_read_query(query: &str) -> (r: bool)
    ensures
        r == is_read_query_spec(query@),
{
    let q = chars_of(query);
    let t = trim_start(&q);
    let ts = string_of(&t);
    let u = to_upper(ts.as_str());
    let uc = chars_of(u.as_str());
    starts_with_str(&uc, "SELECT") || starts_with_str(&uc, "PRAGMA")
}

/// The message of a write: `<n> row(s) affected`.
pub fn affected_message(rows: u64) -> (r: String)
    ensures
        r@ == decimal_nat(rows as nat) + " row(s) affected"@,
{
    let mut m: Vec<char> = Vec::new();
    push_decimal_u64(&mut m, rows);
    append_str(&mut m, " row(s) affected");
    string_of(&m)
}

/// How a blob cell is shown: `<blob <n> bytes>`.
pub fn blob_text(len: u64) -> (r: String)
    ensures
        r@ == "<blob "@ + decimal_nat(len as nat) + " bytes>"@,
{
    let mut m = chars_of("<blob ");
    push_decimal_u64(&mut m, len);
    append_str(&mut m, " bytes>");
    string_of(&m)
}

/// The command a chat message names: with a leading `!`, its first word
/// (empty when there is none); `None` without `!`.
pub open spec fn command_word_spec(m: Seq<char>) -> Option<Seq<char>> {
    if m.len() > 0 && m[0] == '!' {
        let words = split_ws(m.drop_first());
        Some(
            if words.len() > 0 {
                words[0]
            } else {
                Seq::empty()
            },
        )
    } else {
        None
    }
}

/// The text command a chat message names (see [`command_word_spec`]).
pub fn command_word(message: &str) -> (r: Option<String>)
    ensures
        crate::text::opt_str(r) == command_word_spec(message@),
{
    let m = chars_of(message);
    if m.len() == 0 || m[0] != '!' {
        return None;
    }
    let rest = crate::text::slice_chars(&m, 1, m.len());
    assert(rest@ =~= m@.drop_first());
    let words = split_whitespace(&rest);
    if words.len() > 0 {
        Some(string_of(&words[0]))
    } else {
        Some(String::new())
    }
}

} // verus!
