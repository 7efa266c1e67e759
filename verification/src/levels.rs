//! XP and level arithmetic of the levels plugin.
use vstd::prelude::*;
use crate::query::{url_decode, url_decoded};
use crate::text::{append_str, chars_of, split_char, split_on, string_of, strip_prefixes, strip_prefixes_of};

verus! {

/// `r` is the level that `xp` experience points give: the largest `r >= 1`
/// with `r * r * 100 <= xp`, and 1 when `xp < 100`
/// (the formula `level = max(1, floor(sqrt(xp / 100)))`).
pub open spec fn is_level_of(xp: int, r: int) -> bool {
    if xp < 100 {
        r == 1
    } else {
        &&& r >= 1
        &&& r * r * 100 <= xp
        &&& xp < (r + 1) * (r + 1) * 100
    }
}

/// Experience points at which level `level` starts: `level^2 * 100`.
pub open spec fn xp_threshold(level: int) -> int {
    level * level * 100
}

/// A viewer's row in the levels table.
pub struct UserLevel {
    pub id: i64,
    pub channel: String,
    pub username: String,
    pub xp: i64,
    pub level: i64,
    pub total_messages: i64,
    pub last_xp_gain: i64,
}

/// What an XP grant did to a viewer's level.
#[derive(Debug, PartialEq, Eq, Structural, Clone, Copy)]
pub struct LevelChange {
    pub old_level: i64,
    pub new_level: i64,
    pub leveled_up: bool,
    /// The stored level differs from the new one and must be written back.
    pub needs_update: bool,
}

/// XP granted for one chat message.
pub const CHAT_MESSAGE_XP: i64 = 1;

/// XP granted for each minute of watching.
pub const WATCH_MINUTE_XP: i64 = 5;

/// Largest value whose square is at most 92233720368547758, plus one.
const SQRT_BOUND: i64 = 303700050;

proof fn lemma_square_monotone(a: int, b: int)
    requires
        0 <= a <= b,
    ensures
        a * a <= b * b,
{
    assert(a * a <= b * b) by (nonlinear_arith)
        requires
            0 <= a <= b,
    ;
}

/// Level reached with `xp` experience points: `max(1, floor(sqrt(xp / 100)))`.
pub fn calculate_level(xp: i64) -> (r: i64)
    ensures
        is_level_of(xp as int, r as int),
{
    if xp < 100 {
        return 1;
    }
    let q: i64 = xp / 100;
    let mut lo: i64 = 1;
    let mut hi: i64 = SQRT_BOUND;
    proof {
        assert(SQRT_BOUND * SQRT_BOUND > 92233720368547758) by (nonlinear_arith);
        assert(q <= 92233720368547758);
    }
    while hi - lo > 1
        invariant
            1 <= lo < hi <= SQRT_BOUND,
            lo * lo <= q,
            q < hi * hi,
            q == xp / 100,
            xp >= 100,
        decreases hi - lo,
    {
        let mid: i64 = lo + (hi - lo) / 2;
        proof {
            lemma_square_monotone(mid as int, SQRT_BOUND as int);
            assert(SQRT_BOUND * SQRT_BOUND < 0x7fff_ffff_ffff_ffff) by (nonlinear_arith);
        }
        if mid * mid <= q {
            lo = mid;
        } else {
            hi = mid;
        }
    }
    proof {
        assert(hi == lo + 1);
        assert(lo * lo * 100 <= q * 100) by (nonlinear_arith)
            requires
                lo * lo <= q,
        ;
        assert(q + 1 <= (lo + 1) * (lo + 1));
        assert(xp < (q + 1) * 100);
        assert((q + 1) * 100 <= (lo + 1) * (lo + 1) * 100) by (nonlinear_arith)
            requires
                q + 1 <= (lo + 1) * (lo + 1),
        ;
    }
    lo
}

/// Experience points needed to reach `level`: `level^2 * 100`.
pub fn xp_for_level(level: i64) -> (r: i64)
    requires
        xp_threshold(level as int) <= i64::MAX,
    ensures
        r == xp_threshold(level as int),
{
    proof {
        assert(level * level >= 0) by (nonlinear_arith);
        assert(level * level <= level * level * 100) by (nonlinear_arith)
            requires
                level * level >= 0,
        ;
    }
    level * level * 100
}

/// Outcome of granting XP: the old level is the stored one, or 1 for a viewer
/// seen for the first time; the new level follows from the total after the grant.
pub fn level_change(stored_level: Option<i64>, total_xp: i64) -> (r: LevelChange)
    ensures
        r.old_level == (match stored_level {
            Some(l) => l,
            None => 1,
        }),
        is_level_of(total_xp as int, r.new_level as int),
        r.leveled_up == (r.new_level > r.old_level),
        r.needs_update == (r.new_level != r.old_level),
{
    let old_level = match stored_level {
        Some(l) => l,
        None => 1,
    };
    let new_level = calculate_level(total_xp);
    LevelChange {
        old_level,
        new_level,
        leveled_up: new_level > old_level,
        needs_update: new_level != old_level,
    }
}

/// Each `xp` has exactly one level.
pub proof fn lemma_level_unique(xp: int, r1: int, r2: int)
    requires
        is_level_of(xp, r1),
        is_level_of(xp, r2),
    ensures
        r1 == r2,
{
    if xp >= 100 {
        if r1 < r2 {
            lemma_square_monotone(r1 + 1, r2);
            assert((r1 + 1) * (r1 + 1) * 100 <= r2 * r2 * 100) by (nonlinear_arith)
                requires
                    (r1 + 1) * (r1 + 1) <= r2 * r2,
            ;
        } else if r2 < r1 {
            lemma_square_monotone(r2 + 1, r1);
            assert((r2 + 1) * (r2 + 1) * 100 <= r1 * r1 * 100) by (nonlinear_arith)
                requires
                    (r2 + 1) * (r2 + 1) <= r1 * r1,
            ;
        }
    }
}

/// Reaching the threshold of a level gives exactly that level: the level of
/// `xp_threshold(l)` is `l`, for every `l >= 1`.
pub proof fn lemma_threshold_gives_level(l: int)
    requires
        l >= 1,
    ensures
        is_level_of(xp_threshold(l), l),
{
    assert(l * l >= 1) by (nonlinear_arith)
        requires
            l >= 1,
    ;
    assert(l * l * 100 < (l + 1) * (l + 1) * 100) by (nonlinear_arith)
        requires
            l >= 1,
    ;
}

/// More XP never means a lower level.
pub proof fn lemma_level_monotone(xp1: int, xp2: int, r1: int, r2: int)
    requires
        xp1 <= xp2,
        is_level_of(xp1, r1),
        is_level_of(xp2, r2),
    ensures
        r1 <= r2,
{
    if xp1 >= 100 {
        if r2 < r1 {
            lemma_square_monotone(r2 + 1, r1);
            assert((r2 + 1) * (r2 + 1) * 100 <= r1 * r1 * 100) by (nonlinear_arith)
                requires
                    (r2 + 1) * (r2 + 1) <= r1 * r1,
            ;
        }
    }
}

/// The text a piece decodes to, or empty when it does not decode.
pub open spec fn decoded_or_empty(s: Seq<char>) -> Seq<char> {
    match url_decoded(s) {
        Some(d) => d,
        None => Seq::empty(),
    }
}

/// The channel and user a level route names: `/user/<channel>/<username>`
/// with `/user/` taken off as often as it is there, exactly two `/`-pieces,
/// each percent-decoded (empty when it does not decode); `None` answers
/// "Invalid path format".
pub open spec fn level_route_spec(path: Seq<char>) -> Option<(Seq<char>, Seq<char>)> {
    let parts = split_on(strip_prefixes(path, "/user/"@), '/');
    if parts.len() != 2 {
        None
    } else {
        Some((decoded_or_empty(parts[0]), decoded_or_empty(parts[1])))
    }
}

fn decode_or_empty(v: &Vec<char>) -> (r: String)
    ensures
        r@ == decoded_or_empty(v@),
{
    match url_decode(v) {
        Some(d) => string_of(&d),
        None => String::new(),
    }
}

/// Reads a level route (see [`level_route_spec`]).
pub fn level_route(path: &str) -> (r: Option<(String, String)>)
    ensures
        match r {
            Some((c, u)) => level_route_spec(path@) == Some((c@, u@)),
            None => level_route_spec(path@) is None,
        },
{
    let p = chars_of(path);
    let rest = strip_prefixes_of(&p, "/user/");
    let parts = split_char(&rest, '/');
    if parts.len() != 2 {
        return None;
    }
    let c = decode_or_empty(&parts[0]);
    let u = decode_or_empty(&parts[1]);
    Some((c, u))
}

/// The id an XP grant is recorded under: `<channel>:<username>`.
pub fn xp_user_id(channel: &str, username: &str) -> (r: String)
    ensures
        r@ == channel@ + ":"@ + username@,
{
    let mut m = chars_of(channel);
    append_str(&mut m, ":");
    append_str(&mut m, username);
    string_of(&m)
}

} // verus!
