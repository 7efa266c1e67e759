//! Query strings and path parameters of the plugin HTTP routes.
use vstd::prelude::*;
use vstd::string::StringSliceAdditionalSpecFns;
use vstd::utf8::{decode_utf8, encode_utf8, valid_utf8};
use crate::text::{
    chars_of, chars_eq, opt_str, digit_char, has_prefix, lemma_piece_prefix_is, lemma_split_on_nonempty,
    piece_prefix, slice_chars, split_char, split_on, starts_with, string_of,
};

verus! {

/// The value of a hexadecimal digit byte (either case).
pub open spec fn hex_value(b: u8) -> Option<u8> {
    if 48 <= b && b <= 57 {
        Some((b - 48) as u8)
    } else if 65 <= b && b <= 70 {
        Some((b - 55) as u8)
    } else if 97 <= b && b <= 102 {
        Some((b - 87) as u8)
    } else {
        None
    }
}

/// Percent-decoding of the bytes `b`: `%` and two hex digits stand for the
/// byte they spell; a `%` not followed by two hex digits stays as it is
/// (when the text ends within two bytes of it, the rest is kept unchanged).
pub open spec fn percent_decoded(b: Seq<u8>) -> Seq<u8>
    decreases b.len(),
{
    if b.len() == 0 {
        Seq::empty()
    } else if b[0] != 37 {
        seq![b[0]] + percent_decoded(b.drop_first())
    } else {
        let rest = b.drop_first();
        if rest.len() < 2 {
            seq![37u8] + rest
        } else {
            match hex_value(rest[0]) {
                None => seq![37u8] + percent_decoded(rest),
                Some(hi) => match hex_value(rest[1]) {
                    Some(lo) => seq![(hi * 16 + lo) as u8] + percent_decoded(rest.skip(2)),
                    None => seq![37u8, rest[0]] + percent_decoded(rest.skip(1)),
                },
            }
        }
    }
}

/// What `urlencoding::decode` gives for `s`: `s` itself when it holds no
/// `%`; otherwise its UTF-8 bytes percent-decoded and read as UTF-8, or
/// `None` when they are not UTF-8.
pub open spec fn url_decoded(s: Seq<char>) -> Option<Seq<char>> {
    if !s.contains('%') {
        Some(s)
    } else {
        let b = percent_decoded(encode_utf8(s));
        if valid_utf8(b) {
            Some(decode_utf8(b))
        } else {
            None
        }
    }
}

/// The characters held by `o`, if any.
pub open spec fn opt_chars(o: Option<Vec<char>>) -> Option<Seq<char>> {
    match o {
        Some(v) => Some(v@),
        None => None,
    }
}

/// `urlencoding::decode`: percent-decodes `s` as [`url_decoded`] states
/// (the crate returns a text without `%` unchanged, and otherwise decodes the
/// escapes of its bytes and checks them with `String::from_utf8`).
#[verifier::external_body]
pub(crate) fn url_decode(s: &Vec<char>) -> (r: Option<Vec<char>>)
    ensures
        opt_chars(r) == url_decoded(s@),
{
    let text: String = s.iter().collect();
    match urlencoding::decode(&text) {
        Ok(d) => Some(d.chars().collect()),
        Err(_) => None,
    }
}

/// The byte `b` passes `urlencoding::encode` unchanged: ASCII letters,
/// digits, `-`, `.`, `_` and `~`.
pub open spec fn is_unreserved(b: u8) -> bool {
    ||| (48 <= b && b <= 57)
    ||| (65 <= b && b <= 90)
    ||| (97 <= b && b <= 122)
    ||| b == 45
    ||| b == 46
    ||| b == 95
    ||| b == 126
}

/// Upper-case hexadecimal digit for `d < 16`.
pub open spec fn hex_upper(d: int) -> char {
    if d < 10 {
        digit_char(d)
    } else if d == 10 {
        'A'
    } else if d == 11 {
        'B'
    } else if d == 12 {
        'C'
    } else if d == 13 {
        'D'
    } else if d == 14 {
        'E'
    } else {
        'F'
    }
}

/// Percent-encoding of the bytes `b`: unreserved bytes as themselves, every
/// other byte as `%` and two upper-case hex digits.
pub open spec fn percent_encoded(b: Seq<u8>) -> Seq<char>
    decreases b.len(),
{
    if b.len() == 0 {
        Seq::empty()
    } else {
        let x = b[0];
        let head = if is_unreserved(x) {
            seq![x as char]
        } else {
            seq!['%', hex_upper((x / 16) as int), hex_upper((x % 16) as int)]
        };
        head + percent_encoded(b.drop_first())
    }
}

/// `urlencoding::encode`: percent-encodes the UTF-8 bytes of `s`.
#[verifier::external_body]
pub(crate) fn url_encode(s: &str) -> (r: String)
    ensures
        r@ == percent_encoded(s.spec_bytes()),
{
    urlencoding::encode(s).into_owned()
}

/// The value of `key` in one `key=value` pair: `None` unless the first piece
/// is `key`, a second piece follows and it decodes.
pub open spec fn param_from_pair(pair: Seq<char>, key: Seq<char>) -> Option<Seq<char>> {
    let parts = split_on(pair, '=');
    if parts[0] == key && parts.len() >= 2 {
        url_decoded(parts[1])
    } else {
        None
    }
}

/// The first pair that yields a value for `key`.
pub open spec fn find_param(pairs: Seq<Seq<char>>, key: Seq<char>) -> Option<Seq<char>>
    decreases pairs.len(),
{
    if pairs.len() == 0 {
        None
    } else {
        match param_from_pair(pairs[0], key) {
            Some(v) => Some(v),
            None => find_param(pairs.drop_first(), key),
        }
    }
}

/// The value of `key` in `query` (pairs split at `&`, key and value at `=`).
pub open spec fn query_param(query: Seq<char>, key: Seq<char>) -> Option<Seq<char>> {
    find_param(split_on(query, '&'), key)
}

/// Value of `key` in the query string `query`: the decoded second piece of the
/// first `&`-separated pair whose first `=`-piece is `key` and that has a
/// second piece that decodes. Pairs whose value does not decode are passed over.
pub fn parse_query_param(query: &str, key: &str) -> (r: Option<String>)
    ensures
        opt_str(r) == query_param(query@, key@),
{
    let q = chars_of(query);
    let k = chars_of(key);
    let pairs = split_char(&q, '&');
    let mut i: usize = 0;
    assert(split_on(q@, '&').skip(0) =~= split_on(q@, '&'));
    while i < pairs.len()
        invariant
            i <= pairs@.len(),
            pairs@.len() == split_on(q@, '&').len(),
            forall|j: int| 0 <= j < pairs@.len() ==> #[trigger] pairs@[j]@ == split_on(q@, '&')[j],
            q@ == query@,
            k@ == key@,
            find_param(split_on(q@, '&').skip(i as int), key@) == query_param(query@, key@),
        decreases pairs.len() - i,
    {
        let ghost rest = split_on(q@, '&').skip(i as int);
        assert(rest[0] == pairs@[i as int]@);
        assert(rest.drop_first() =~= split_on(q@, '&').skip(i + 1));
        let parts = split_char(&pairs[i], '=');
        proof {
            lemma_split_on_nonempty(pairs@[i as int]@, '=');
        }
        if chars_eq(&parts[0], &k) && parts.len() >= 2 {
            match url_decode(&parts[1]) {
                Some(v) => {
                    return Some(string_of(&v));
                },
                None => {},
            }
        }
        i = i + 1;
    }
    assert(split_on(q@, '&').skip(i as int) =~= Seq::<Seq<char>>::empty());
    None
}

/// The first pair of `pairs` whose first `=`-piece is `key` and that has a
/// second piece, as that second piece.
pub open spec fn first_keyed_value(pairs: Seq<Seq<char>>, key: Seq<char>) -> Option<Seq<char>>
    decreases pairs.len(),
{
    if pairs.len() == 0 {
        None
    } else {
        let parts = split_on(pairs[0], '=');
        if parts[0] == key && parts.len() >= 2 {
            Some(parts[1])
        } else {
            first_keyed_value(pairs.drop_first(), key)
        }
    }
}

/// Value of `key` in `query` as the counters plugin reads it: the decoded value
/// of the first pair with that key and a value; empty when there is none or
/// when that value does not decode.
pub fn extract_query_param(query: &str, key: &str) -> (r: String)
    ensures
        r@ == (match first_keyed_value(split_on(query@, '&'), key@) {
            Some(v) => match url_decoded(v) {
                Some(d) => d,
                None => Seq::empty(),
            },
            None => Seq::empty(),
        }),
{
    let q = chars_of(query);
    let k = chars_of(key);
    let pairs = split_char(&q, '&');
    let mut i: usize = 0;
    assert(split_on(q@, '&').skip(0) =~= split_on(q@, '&'));
    while i < pairs.len()
        invariant
            i <= pairs@.len(),
            pairs@.len() == split_on(q@, '&').len(),
            forall|j: int| 0 <= j < pairs@.len() ==> #[trigger] pairs@[j]@ == split_on(q@, '&')[j],
            q@ == query@,
            k@ == key@,
            first_keyed_value(split_on(q@, '&').skip(i as int), key@) == first_keyed_value(
                split_on(query@, '&'),
                key@,
            ),
        decreases pairs.len() - i,
    {
        let ghost rest = split_on(q@, '&').skip(i as int);
        assert(rest[0] == pairs@[i as int]@);
        assert(rest.drop_first() =~= split_on(q@, '&').skip(i + 1));
        let parts = split_char(&pairs[i], '=');
        proof {
            lemma_split_on_nonempty(pairs@[i as int]@, '=');
        }
        if chars_eq(&parts[0], &k) && parts.len() >= 2 {
            return match url_decode(&parts[1]) {
                Some(v) => string_of(&v),
                None => String::new(),
            };
        }
        i = i + 1;
    }
    assert(split_on(q@, '&').skip(i as int) =~= Seq::<Seq<char>>::empty());
    String::new()
}

/// The decoded rest of `path` after `prefix`; empty when `path` does not start
/// with `prefix` or the rest does not decode.
pub fn extract_path_param(path: &str, prefix: &str) -> (r: String)
    ensures
        r@ == (if has_prefix(path@, prefix@) {
            match url_decoded(path@.skip(prefix@.len() as int)) {
                Some(d) => d,
                None => Seq::empty(),
            }
        } else {
            Seq::empty()
        }),
{
    let p = chars_of(path);
    let pre = chars_of(prefix);
    if starts_with(&p, &pre) {
        let rest = slice_chars(&p, pre.len(), p.len());
        assert(rest@ =~= path@.skip(prefix@.len() as int));
        match url_decode(&rest) {
            Some(d) => string_of(&d),
            None => String::new(),
        }
    } else {
        String::new()
    }
}

/// One `&`-separated pair read as `key=value` (split at the first `=`; a pair
/// without `=` has an empty value), with the value decoded.
pub open spec fn query_entry(pair: Seq<char>) -> Option<(Seq<char>, Seq<char>)> {
    let key = piece_prefix(pair, '=');
    let raw = if key.len() < pair.len() {
        pair.skip(key.len() as int + 1)
    } else {
        Seq::empty()
    };
    match url_decoded(raw) {
        Some(v) => Some((key, v)),
        None => None,
    }
}

/// The decoded entries of `pairs`, in order, leaving out those whose value
/// does not decode.
pub open spec fn query_entries(pairs: Seq<Seq<char>>) -> Seq<(Seq<char>, Seq<char>)>
    decreases pairs.len(),
{
    if pairs.len() == 0 {
        Seq::empty()
    } else {
        match query_entry(pairs[0]) {
            Some(e) => seq![e] + query_entries(pairs.drop_first()),
            None => query_entries(pairs.drop_first()),
        }
    }
}

/// Ordered `key`/`value` entries, read like a map: a lookup takes the last
/// entry with the key (a decoded query string, the tags of a chat line).
pub struct KeyValues {
    pub entries: Vec<(String, String)>,
}

impl KeyValues {
    /// The entries as plain text pairs.
    pub open spec fn view_entries(&self) -> Seq<(Seq<char>, Seq<char>)> {
        self.entries@.map_values(|e: (String, String)| (e.0@, e.1@))
    }
}

/// The value a map built from `entries` holds for `key`: that of the last
/// entry with the key.
pub open spec fn last_value(entries: Seq<(Seq<char>, Seq<char>)>, key: Seq<char>) -> Option<Seq<char>>
    decreases entries.len(),
{
    if entries.len() == 0 {
        None
    } else if entries.last().0 == key {
        Some(entries.last().1)
    } else {
        last_value(entries.drop_last(), key)
    }
}

/// Reads a whole query string into its entries (the YouTube router's reader).
pub fn parse_query(query: &str) -> (r: KeyValues)
    ensures
        r.view_entries() == query_entries(split_on(query@, '&')),
{
    let q = chars_of(query);
    let pairs = split_char(&q, '&');
    let mut entries: Vec<(String, String)> = Vec::new();
    let mut i: usize = 0;
    let ghost all = split_on(q@, '&');
    assert(all.skip(0) =~= all);
    assert(entries@.map_values(|e: (String, String)| (e.0@, e.1@)) =~= Seq::<
        (Seq<char>, Seq<char>),
    >::empty());
    while i < pairs.len()
        invariant
            i <= pairs@.len(),
            pairs@.len() == all.len(),
            forall|j: int| 0 <= j < pairs@.len() ==> #[trigger] pairs@[j]@ == all[j],
            all == split_on(query@, '&'),
            entries@.map_values(|e: (String, String)| (e.0@, e.1@)) + query_entries(
                all.skip(i as int),
            ) == query_entries(all),
        decreases pairs.len() - i,
    {
        let ghost rest = all.skip(i as int);
        assert(rest[0] == pairs@[i as int]@);
        assert(rest.drop_first() =~= all.skip(i + 1));
        let pair = &pairs[i];
        let mut j: usize = 0;
        while j < pair.len() && pair[j] != '='
            invariant
                j <= pair@.len(),
                forall|k: int| 0 <= k < j ==> pair@[k] != '=',
            decreases pair.len() - j,
        {
            j = j + 1;
        }
        proof {
            lemma_piece_prefix_is(pair@, '=', j as int);
        }
        let key = slice_chars(pair, 0, j);
        let raw = if j < pair.len() {
            slice_chars(pair, j + 1, pair.len())
        } else {
            Vec::new()
        };
        proof {
            assert(key@ =~= pair@.take(j as int));
            if j < pair@.len() {
                assert(raw@ =~= pair@.skip(j + 1));
            } else {
                assert(raw@ =~= Seq::<char>::empty());
            }
        }
        let ghost before = entries@.map_values(|e: (String, String)| (e.0@, e.1@));
        match url_decode(&raw) {
            Some(v) => {
                let ks = string_of(&key);
                let vs = string_of(&v);
                entries.push((ks, vs));
                proof {
                    assert(entries@.map_values(|e: (String, String)| (e.0@, e.1@)) =~= before.push(
                        (key@, v@),
                    ));
                    assert(query_entries(rest) == seq![(key@, v@)] + query_entries(
                        rest.drop_first(),
                    ));
                    assert(before + query_entries(rest) =~= before.push((key@, v@))
                        + query_entries(rest.drop_first()));
                }
            },
            None => {},
        }
        i = i + 1;
    }
    assert(all.skip(i as int) =~= Seq::<Seq<char>>::empty());
    assert(entries@.map_values(|e: (String, String)| (e.0@, e.1@)) =~= query_entries(all));
    KeyValues { entries }
}

impl KeyValues {
    /// The value for `key`: that of the last entry with this key.
    pub fn get(&self, key: &str) -> (r: Option<String>)
        ensures
            opt_str(r) == last_value(self.view_entries(), key@),
    {
        let k = chars_of(key);
        let mut i: usize = self.entries.len();
        assert(self.view_entries().take(i as int) =~= self.view_entries());
        while i > 0
            invariant
                i <= self.entries@.len(),
                k@ == key@,
                last_value(self.view_entries().take(i as int), key@) == last_value(
                    self.view_entries(),
                    key@,
                ),
            decreases i,
        {
            let ghost t = self.view_entries().take(i as int);
            assert(t.drop_last() =~= self.view_entries().take(i - 1));
            let e = &self.entries[i - 1];
            let ek = chars_of(e.0.as_str());
            if chars_eq(&ek, &k) {
                return Some(e.1.clone());
            }
            i = i - 1;
        }
        assert(self.view_entries().take(0) =~= Seq::<(Seq<char>, Seq<char>)>::empty());
        None
    }
}

/// Positional parameters of a YouTube route path.
#[derive(Debug)]
pub struct PathParams {
    /// The third `/`-separated piece, when the path has at least three.
    pub id: Option<String>,
    /// The third piece again, when the path has at least four.
    pub channel_id: Option<String>,
}

/// Reads the positional parameters of `path`: with pieces split at `/`, `id`
/// is piece 2 when there are at least 3 pieces, and `channel_id` is the same
/// piece when there are at least 4.
pub fn parse_path(path: &str) -> (r: PathParams)
    ensures
        ({
            let parts = split_on(path@, '/');
            &&& opt_str(r.id) == (if parts.len() >= 3 {
                Some(parts[2])
            } else {
                None
            })
            &&& opt_str(r.channel_id) == (if parts.len() >= 4 {
                Some(parts[2])
            } else {
                None
            })
        }),
{
    let p = chars_of(path);
    let parts = split_char(&p, '/');
    let id = if parts.len() >= 3 {
        Some(string_of(&parts[2]))
    } else {
        None
    };
    let channel_id = if parts.len() >= 4 {
        Some(string_of(&parts[2]))
    } else {
        None
    };
    PathParams { id, channel_id }
}

} // verus!
