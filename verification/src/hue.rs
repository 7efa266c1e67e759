//! Philips Hue: route paths, bridge URLs, pairing answers and the rows
//! stored for discovered lights and groups.
use vstd::prelude::*;
use crate::text::{append_str, chars_of, parse_i64, parse_i64_spec, string_of, strip_prefixes, strip_prefixes_of, strip_suffixes, strip_suffixes_of, trim_start_char, strip_leading, join_with};

verus! {

/// The id part of a route path such as `/bridges/2/discover`: leading `/`
/// taken off, then the prefix (such as `bridges/`) as often as it is there,
/// then the suffix (such as `/discover`) as often as it is there.
pub open spec fn route_id_spec(path: Seq<char>, prefix: Seq<char>, suffix: Seq<char>) -> Seq<char> {
    strip_suffixes(strip_prefixes(trim_start_char(path, '/'), prefix), suffix)
}

/// The id part of a route path (see [`route_id_spec`]).
pub fn route_id(path: &str, prefix: &str, suffix: &str) -> (r: String)
    ensures
        r@ == route_id_spec(path@, prefix@, suffix@),
{
    let p = chars_of(path);
    let a = strip_leading(&p, '/');
    let b = strip_prefixes_of(&a, prefix);
    let c = strip_suffixes_of(&b, suffix);
    string_of(&c)
}

/// A bridge id from a route path: the id part read as an `i64`; `None`
/// answers "Invalid bridge ID".
pub fn bridge_id(path: &str, suffix: &str) -> (r: Option<i64>)
    ensures
        r == parse_i64_spec(route_id_spec(path@, "bridges/"@, suffix@)),
{
    let id = route_id(path, "bridges/", suffix);
    let c = chars_of(id.as_str());
    parse_i64(&c)
}

/// Why discovering a bridge's lights stops before anything is asked of the
/// bridge: the HTTP status and the error text.
pub open spec fn discover_refusal(id: Option<i64>, found: bool, paired: bool) -> Option<(u16, Seq<char>)> {
    if id is None {
        Some((400u16, "Invalid bridge ID"@))
    } else if !found {
        Some((404u16, "Bridge not found"@))
    } else if !paired {
        Some((401u16, "Bridge not paired"@))
    } else {
        None
    }
}

/// The checks before discovering a bridge's lights. `id` is the id read from
/// the path ([`bridge_id`]); `row` is the bridge's stored address and user
/// name, `None` when no bridge has that id. The bridge is asked for its
/// lights only on `Ok`, with the address and user given there; each `Err`
/// is the answer sent instead, and nothing is written.
pub fn discover_precheck(id: Option<i64>, row: Option<(String, Option<String>)>) -> (r: Result<(String, String), (u16, String)>)
    ensures
        ({
            let found = row is Some;
            let paired = row matches Some((_, u)) && u is Some;
            match discover_refusal(id, found, paired) {
                Some((code, text)) => r matches Err((c, t)) && c == code && t@ == text,
                None => r matches Ok((ip, user)) && row matches Some((rip, Some(ru)))
                    && ip@ == rip@ && user@ == ru@,
            }
        }),
{
    if id.is_none() {
        return Err((400, "Invalid bridge ID".to_owned()));
    }
    match row {
        None => Err((404, "Bridge not found".to_owned())),
        Some((ip, user)) => match user {
            None => Err((401, "Bridge not paired".to_owned())),
            Some(u) => Ok((ip, u)),
        },
    }
}

/// The bridge's API address: `http://<ip>/api`, then `/<user>/<resource>`
/// when a user is given.
pub open spec fn bridge_url_spec(ip: Seq<char>, user: Option<Seq<char>>, resource: Seq<char>) -> Seq<char> {
    match user {
        Some(u) => "http://"@ + ip + "/api/"@ + u + "/"@ + resource,
        None => "http://"@ + ip + "/api"@,
    }
}

/// The bridge's API address (see [`bridge_url_spec`]).
pub fn bridge_url(ip: &str, user: Option<&str>, resource: &str) -> (r: String)
    ensures
        r@ == bridge_url_spec(ip@, match user {
            Some(u) => Some(u@),
            None => None,
        }, resource@),
{
    let mut m = chars_of("http://");
    append_str(&mut m, ip);
    match user {
        Some(u) => {
            append_str(&mut m, "/api/");
            append_str(&mut m, u);
            append_str(&mut m, "/");
            append_str(&mut m, resource);
        },
        None => append_str(&mut m, "/api"),
    }
    string_of(&m)
}

/// The first entry of a bridge's answer to a pairing request.
pub struct PairAnswer {
    /// `success.username`, when it is there as text.
    pub username: Option<String>,
    /// `error.description`, when it is there as text.
    pub error_description: Option<String>,
}

/// What a pairing request came to.
pub enum PairOutcome {
    /// The bridge gave this user name: store it.
    Paired(String),
    /// The bridge refused, with this description.
    Refused(String),
    /// Anything else: "Unexpected response from bridge".
    Unexpected,
}

/// Reads the answer to a pairing request: a user name wins over an error.
pub fn pair_outcome(first: Option<PairAnswer>) -> (r: PairOutcome)
    ensures
        match first {
            None => r is Unexpected,
            Some(a) => match a.username {
                Some(u) => r matches PairOutcome::Paired(x) && x@ == u@,
                None => match a.error_description {
                    Some(d) => r matches PairOutcome::Refused(x) && x@ == d@,
                    None => r is Unexpected,
                },
            },
        },
{
    match first {
        None => PairOutcome::Unexpected,
        Some(a) => match a.username {
            Some(u) => PairOutcome::Paired(u),
            None => match a.error_description {
                Some(d) => PairOutcome::Refused(d),
                None => PairOutcome::Unexpected,
            },
        },
    }
}

/// A light as a bridge reports it (fields absent or of another type are `None`).
pub struct LightInfo {
    pub id: String,
    pub name: Option<String>,
    pub kind: Option<String>,
    pub on: Option<bool>,
    pub bri: Option<u64>,
    pub hue: Option<u64>,
    pub sat: Option<u64>,
    pub ct: Option<u64>,
    pub reachable: Option<bool>,
}

/// A stored light.
pub struct LightRow {
    pub id: String,
    pub bridge_id: i64,
    pub name: String,
    pub kind: String,
    pub state_on: i32,
    pub brightness: Option<i64>,
    pub hue: Option<i64>,
    pub saturation: Option<i64>,
    pub color_temp: Option<i64>,
    pub reachable: i32,
    pub last_updated: i64,
}

/// A number as stored: the `u64` read as an `i64` (`as i64`).
pub open spec fn stored_number(v: Option<u64>) -> Option<i64> {
    match v {
        Some(x) => Some(x as i64),
        None => None,
    }
}

fn stored(v: Option<u64>) -> (r: Option<i64>)
    ensures
        r == stored_number(v),
{
    match v {
        Some(x) => Some(x as i64),
        None => None,
    }
}

/// The text, or `Unknown`.
pub open spec fn or_unknown(o: Option<String>) -> Seq<char> {
    match o {
        Some(s) => s@,
        None => "Unknown"@,
    }
}

fn text_or_unknown(o: Option<String>) -> (r: String)
    ensures
        r@ == or_unknown(o),
{
    match o {
        Some(s) => s,
        None => "Unknown".to_owned(),
    }
}

/// A flag as stored: 1 for true, 0 for false or missing.
pub open spec fn stored_flag(b: Option<bool>) -> i32 {
    if b == Some(true) {
        1
    } else {
        0
    }
}

/// The row stored for a discovered light: missing names and types are
/// `Unknown`, missing flags are off.
pub fn light_row(l: LightInfo, bridge_id: i64, now: i64) -> (r: LightRow)
    ensures
        r.id@ == l.id@,
        r.bridge_id == bridge_id,
        r.name@ == or_unknown(l.name),
        r.kind@ == or_unknown(l.kind),
        r.state_on == stored_flag(l.on),
        r.brightness == stored_number(l.bri),
        r.hue == stored_number(l.hue),
        r.saturation == stored_number(l.sat),
        r.color_temp == stored_number(l.ct),
        r.reachable == stored_flag(l.reachable),
        r.last_updated == now,
{
    LightRow {
        id: l.id,
        bridge_id,
        name: text_or_unknown(l.name),
        kind: text_or_unknown(l.kind),
        state_on: if l.on == Some(true) { 1 } else { 0 },
        brightness: stored(l.bri),
        hue: stored(l.hue),
        saturation: stored(l.sat),
        color_temp: stored(l.ct),
        reachable: if l.reachable == Some(true) { 1 } else { 0 },
        last_updated: now,
    }
}

/// A group as a bridge reports it.
pub struct GroupInfo {
    pub id: String,
    pub name: Option<String>,
    pub kind: Option<String>,
    /// The `lights` list, when it is there: each entry's text, if it is text.
    pub lights: Option<Vec<Option<String>>>,
    pub on: Option<bool>,
    pub bri: Option<u64>,
}

/// A stored group.
pub struct GroupRow {
    pub id: String,
    pub bridge_id: i64,
    pub name: String,
    pub kind: String,
    /// The group's light ids joined with `,`.
    pub lights: String,
    pub state_on: i32,
    pub brightness: Option<i64>,
    pub last_updated: i64,
}

/// The texts among `v`, in order.
pub open spec fn present_texts(v: Seq<Option<String>>) -> Seq<Seq<char>>
    decreases v.len(),
{
    if v.len() == 0 {
        Seq::empty()
    } else {
        let r = present_texts(v.drop_last());
        match v.last() {
            Some(s) => r.push(s@),
            None => r,
        }
    }
}

/// The light ids of a group as stored: the text entries joined with `,`;
/// empty without a list.
pub open spec fn group_lights_spec(l: Option<Vec<Option<String>>>) -> Seq<char> {
    match l {
        Some(v) => join_with(present_texts(v@), ","@),
        None => Seq::empty(),
    }
}

fn join_lights(l: &Option<Vec<Option<String>>>) -> (r: String)
    ensures
        r@ == group_lights_spec(*l),
{
    match l {
        None => String::new(),
        Some(v) => {
            let mut out: Vec<char> = Vec::new();
            let mut any = false;
            let mut i: usize = 0;
            assert(v@.take(0) =~= Seq::<Option<String>>::empty());
            while i < v.len()
                invariant
                    i <= v@.len(),
                    any == (present_texts(v@.take(i as int)).len() > 0),
                    out@ == join_with(present_texts(v@.take(i as int)), ","@),
                decreases v.len() - i,
            {
                proof {
                    assert(v@.take(i + 1).drop_last() =~= v@.take(i as int));
                }
                match &v[i] {
                    Some(s) => {
                        let ghost before = present_texts(v@.take(i as int));
                        if any {
                            append_str(&mut out, ",");
                        }
                        append_str(&mut out, s.as_str());
                        proof {
                            let after = before.push(s@);
                            assert(after.drop_last() =~= before);
                            if before.len() == 0 {
                                assert(out@ =~= s@);
                            }
                        }
                        any = true;
                    },
                    None => {},
                }
                i = i + 1;
            }
            assert(v@.take(i as int) =~= v@);
            string_of(&out)
        },
    }
}

/// The row stored for a discovered group.
pub fn group_row(g: GroupInfo, bridge_id: i64, now: i64) -> (r: GroupRow)
    ensures
        r.id@ == g.id@,
        r.bridge_id == bridge_id,
        r.name@ == or_unknown(g.name),
        r.kind@ == or_unknown(g.kind),
        r.lights@ == group_lights_spec(g.lights),
        r.state_on == stored_flag(g.on),
        r.brightness == stored_number(g.bri),
        r.last_updated == now,
{
    let lights = join_lights(&g.lights);
    GroupRow {
        id: g.id,
        bridge_id,
        name: text_or_unknown(g.name),
        kind: text_or_unknown(g.kind),
        lights,
        state_on: if g.on == Some(true) { 1 } else { 0 },
        brightness: stored(g.bri),
        last_updated: now,
    }
}

} // verus!
