//! Record routes shared by several plugins: ids in paths, partial updates,
//! and confession submissions.
use vstd::prelude::*;
use crate::query::{extract_path_param, url_decoded};
use crate::text::{
    append_str, byte_len, chars_byte_len, chars_of, decimal, has_prefix, join_with, parse_i64,
    parse_i64_spec, push_decimal_i64, same_text, string_of,
};

verus! {

/// Why an id in a path was refused.
#[derive(PartialEq, Eq, Structural, Clone, Copy, Debug)]
pub enum PathIdError {
    /// Nothing after the prefix: "Missing ... id".
    Missing,
    /// Not a number: "Invalid ... id".
    Invalid,
}

/// The decoded rest of a path after a prefix (empty when the path does not
/// start with it or it does not decode), as `extract_path_param` reads it.
pub open spec fn path_rest(path: Seq<char>, prefix: Seq<char>) -> Seq<char> {
    if has_prefix(path, prefix) {
        match url_decoded(path.skip(prefix.len() as int)) {
            Some(d) => d,
            None => Seq::empty(),
        }
    } else {
        Seq::empty()
    }
}

/// The id a record route names after `prefix`: missing when the rest is
/// empty, invalid when it is not an `i64`.
pub fn path_id(path: &str, prefix: &str) -> (r: Result<i64, PathIdError>)
    ensures
        ({
            let rest = path_rest(path@, prefix@);
            if rest.len() == 0 {
                r == Err::<i64, PathIdError>(PathIdError::Missing)
            } else {
                match parse_i64_spec(rest) {
                    Some(v) => r == Ok::<i64, PathIdError>(v),
                    None => r == Err::<i64, PathIdError>(PathIdError::Invalid),
                }
            }
        }),
{
    let rest = extract_path_param(path, prefix);
    let c = chars_of(rest.as_str());
    if c.len() == 0 {
        return Err(PathIdError::Missing);
    }
    match parse_i64(&c) {
        Some(v) => Ok(v),
        None => Err(PathIdError::Invalid),
    }
}

/// The `column = ?` assignments of a partial update: the columns given, then
/// `updated_at`.
pub open spec fn assignments(columns: Seq<Seq<char>>) -> Seq<Seq<char>> {
    columns.map_values(|c: Seq<char>| c + " = ?"@).push("updated_at = ?"@)
}

/// The statement of a partial update of the row with a given id.
pub open spec fn update_statement_spec(table: Seq<char>, columns: Seq<Seq<char>>) -> Seq<char> {
    "UPDATE "@ + table + " SET "@ + join_with(assignments(columns), ", "@) + " WHERE id = ?"@
}

/// The texts of `v`.
pub open spec fn texts(v: Seq<String>) -> Seq<Seq<char>> {
    v.map_values(|s: String| s@)
}

/// The statement of a partial update (see [`update_statement_spec`]); its
/// parameters are the new values in column order, the time, then the id.
pub fn update_statement(table: &str, columns: &Vec<String>) -> (r: String)
    ensures
        r@ == update_statement_spec(table@, texts(columns@)),
{
    let ghost all = assignments(texts(columns@));
    let mut m = chars_of("UPDATE ");
    append_str(&mut m, table);
    append_str(&mut m, " SET ");
    let ghost head = m@;
    let mut set: Vec<char> = Vec::new();
    let mut i: usize = 0;
    assert(all.take(0) =~= Seq::<Seq<char>>::empty());
    while i < columns.len()
        invariant
            i <= columns@.len(),
            all == assignments(texts(columns@)),
            all.len() == columns@.len() + 1,
            set@ == join_with(all.take(i as int), ", "@),
        decreases columns.len() - i,
    {
        assert(all.take(i + 1).drop_last() =~= all.take(i as int));
        assert(all[i as int] == columns@[i as int]@ + " = ?"@);
        if i > 0 {
            append_str(&mut set, ", ");
        } else {
            assert(set@ =~= Seq::<char>::empty());
        }
        append_str(&mut set, columns[i].as_str());
        append_str(&mut set, " = ?");
        i = i + 1;
        proof {
            if i == 1 {
                assert(set@ =~= all.take(1)[0]);
            }
        }
    }
    assert(all.take(i + 1).drop_last() =~= all.take(i as int));
    if i > 0 {
        append_str(&mut set, ", ");
    } else {
        assert(set@ =~= Seq::<char>::empty());
    }
    append_str(&mut set, "updated_at = ?");
    proof {
        if i == 0 {
            assert(set@ =~= all.take(1)[0]);
        }
        assert(all.take(i + 1) =~= all);
    }
    crate::text::append_chars(&mut m, &set);
    append_str(&mut m, " WHERE id = ?");
    assert(m@ =~= update_statement_spec(table@, texts(columns@)));
    string_of(&m)
}

/// The columns a note update sets: title, content and category, each when
/// given; `None` when none is ("No fields to update").
pub fn note_update_columns(title: bool, content: bool, category: bool) -> (r: Option<Vec<String>>)
    ensures
        r is None <==> (!title && !content && !category),
        r matches Some(v) ==> texts(v@) == (if title { seq!["title"@] } else { Seq::<Seq<char>>::empty() })
            + (if content { seq!["content"@] } else { Seq::<Seq<char>>::empty() })
            + (if category { seq!["category"@] } else { Seq::<Seq<char>>::empty() }),
{
    if !title && !content && !category {
        return None;
    }
    let mut v: Vec<String> = Vec::new();
    if title {
        v.push("title".to_owned());
    }
    if content {
        v.push("content".to_owned());
    }
    if category {
        v.push("category".to_owned());
    }
    assert(texts(v@) =~= (if title { seq!["title"@] } else { Seq::<Seq<char>>::empty() })
        + (if content { seq!["content"@] } else { Seq::<Seq<char>>::empty() })
        + (if category { seq!["category"@] } else { Seq::<Seq<char>>::empty() }));
    Some(v)
}

/// The columns a ticker segment update sets: `enabled` and `content`, each
/// when given (an empty list means there is nothing to write).
pub fn segment_update_columns(enabled: bool, content: bool) -> (r: Vec<String>)
    ensures
        texts(r@) == (if enabled { seq!["enabled"@] } else { Seq::<Seq<char>>::empty() })
            + (if content { seq!["content"@] } else { Seq::<Seq<char>>::empty() }),
{
    let mut v: Vec<String> = Vec::new();
    if enabled {
        v.push("enabled".to_owned());
    }
    if content {
        v.push("content".to_owned());
    }
    assert(texts(v@) =~= (if enabled { seq!["enabled"@] } else { Seq::<Seq<char>>::empty() })
        + (if content { seq!["content"@] } else { Seq::<Seq<char>>::empty() }));
    v
}

/// The confession settings as read: moderation is on unless stored as
/// other than `true`, with lengths 10 and 500 unless stored as numbers.
pub struct ConfessionSettings {
    pub require_moderation: bool,
    pub min_length: i64,
    pub max_length: i64,
}

/// Reads the stored confession settings (each `None` when not stored).
pub fn confession_settings(require_moderation: Option<String>, min_length: Option<String>, max_length: Option<String>) -> (r: ConfessionSettings)
    ensures
        r.require_moderation == (match require_moderation {
            Some(v) => v@ == "true"@,
            None => true,
        }),
        r.min_length == (match min_length {
            Some(v) => match parse_i64_spec(v@) {
                Some(n) => n,
                None => 10,
            },
            None => 10,
        }),
        r.max_length == (match max_length {
            Some(v) => match parse_i64_spec(v@) {
                Some(n) => n,
                None => 500,
            },
            None => 500,
        }),
{
    let require = match require_moderation {
        Some(v) => same_text(v.as_str(), "true"),
        None => true,
    };
    let min = match min_length {
        Some(v) => {
            let c = chars_of(v.as_str());
            match parse_i64(&c) {
                Some(n) => n,
                None => 10,
            }
        },
        None => 10,
    };
    let max = match max_length {
        Some(v) => {
            let c = chars_of(v.as_str());
            match parse_i64(&c) {
                Some(n) => n,
                None => 500,
            }
        },
        None => 500,
    };
    ConfessionSettings { require_moderation: require, min_length: min, max_length: max }
}

/// Why a confession is turned down (the answer's text).
pub open spec fn confession_error_spec(len: int, s: ConfessionSettings) -> Option<Seq<char>> {
    if len < s.min_length {
        Some("Confession too short (minimum "@ + decimal(s.min_length as int) + " characters)"@)
    } else if len > s.max_length {
        Some("Confession too long (maximum "@ + decimal(s.max_length as int) + " characters)"@)
    } else {
        None
    }
}

/// Checks a confession's length in UTF-8 bytes against the settings.
pub fn check_confession(text: &str, s: &ConfessionSettings) -> (r: Option<String>)
    requires
        byte_len(text@) <= isize::MAX,
    ensures
        crate::text::opt_str(r) == confession_error_spec(byte_len(text@) as int, *s),
{
    let c = chars_of(text);
    let n = chars_byte_len(&c);
    let len = n as i64;
    if len < s.min_length {
        let mut m = chars_of("Confession too short (minimum ");
        push_decimal_i64(&mut m, s.min_length);
        append_str(&mut m, " characters)");
        Some(string_of(&m))
    } else if len > s.max_length {
        let mut m = chars_of("Confession too long (maximum ");
        push_decimal_i64(&mut m, s.max_length);
        append_str(&mut m, " characters)");
        Some(string_of(&m))
    } else {
        None
    }
}

/// The status a new confession gets, and whether it is approved at once.
pub fn confession_status(require_moderation: bool) -> (r: String)
    ensures
        r@ == (if require_moderation { "pending"@ } else { "approved"@ }),
{
    if require_moderation {
        "pending".to_owned()
    } else {
        "approved".to_owned()
    }
}

/// The conditions `" AND <column> = ?"` for each filter given.
pub open spec fn filter_clauses(columns: Seq<Seq<char>>) -> Seq<char>
    decreases columns.len(),
{
    if columns.len() == 0 {
        Seq::empty()
    } else {
        filter_clauses(columns.drop_last()) + " AND "@ + columns.last() + " = ?"@
    }
}

/// A listing query: the base query (ending in a `WHERE` clause), one
/// equality condition per filter given, in order, then the tail (ordering
/// and limit). Its parameters are the filter values in the same order.
pub fn filtered_query(base: &str, columns: &Vec<String>, tail: &str) -> (r: String)
    ensures
        r@ == base@ + filter_clauses(texts(columns@)) + tail@,
{
    let ghost all = texts(columns@);
    let mut m = chars_of(base);
    let mut i: usize = 0;
    assert(all.take(0) =~= Seq::<Seq<char>>::empty());
    while i < columns.len()
        invariant
            i <= columns@.len(),
            all == texts(columns@),
            m@ == base@ + filter_clauses(all.take(i as int)),
        decreases columns.len() - i,
    {
        assert(all.take(i + 1).drop_last() =~= all.take(i as int));
        assert(all[i as int] == columns@[i as int]@);
        append_str(&mut m, " AND ");
        append_str(&mut m, columns[i].as_str());
        append_str(&mut m, " = ?");
        i = i + 1;
        assert(m@ =~= base@ + filter_clauses(all.take(i as int)));
    }
    assert(all.take(i as int) =~= all);
    append_str(&mut m, tail);
    string_of(&m)
}

/// The id that leads the rest of a path after `prefix` (up to the next `/`),
/// as `/tasks/<id>/complete` names a task; `None` answers "Invalid task_id".
pub fn leading_id(path: &str, prefix: &str) -> (r: Option<i64>)
    ensures
        r == parse_i64_spec(crate::text::split_on(path_rest(path@, prefix@), '/')[0]),
{
    let rest = extract_path_param(path, prefix);
    let c = chars_of(rest.as_str());
    let parts = crate::text::split_char(&c, '/');
    proof {
        crate::text::lemma_split_on_nonempty(c@, '/');
    }
    parse_i64(&parts[0])
}

} // verus!
