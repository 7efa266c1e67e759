//! Watchtime: who is watching (active chatters), the per-minute awards, the
//! `!watchtime` command and the period filters of the statistics.
use vstd::prelude::*;
use crate::text::{
    append_str, chars_of, decimal, has_prefix, lowercase, push_decimal_i64, same_text,
    split_whitespace, split_ws, starts_with_str, string_of, strip_leading, to_lower,
    trim_start_char,
};
use crate::levels::WATCH_MINUTE_XP;

verus! {

/// A viewer: channel and user name.
pub type ViewerKey = (Seq<char>, Seq<char>);

/// The viewer of an entry.
pub open spec fn key_of(e: (Seq<char>, Seq<char>, i64)) -> ViewerKey {
    (e.0, e.1)
}

/// The entries as plain values.
pub open spec fn entries_view(v: Seq<(String, String, i64)>) -> Seq<(Seq<char>, Seq<char>, i64)> {
    v.map_values(|e: (String, String, i64)| (e.0@, e.1@, e.2))
}

/// No viewer appears twice.
pub open spec fn keys_unique(s: Seq<(Seq<char>, Seq<char>, i64)>) -> bool {
    forall|i: int, j: int| 0 <= i < j < s.len() ==> key_of(#[trigger] s[i]) != key_of(#[trigger] s[j])
}

/// The map from viewer to last activity that the entries spell.
pub open spec fn viewer_map(s: Seq<(Seq<char>, Seq<char>, i64)>) -> Map<ViewerKey, i64>
    decreases s.len(),
{
    if s.len() == 0 {
        Map::empty()
    } else {
        viewer_map(s.drop_last()).insert(key_of(s.last()), s.last().2)
    }
}

/// The viewers still counted as watching at `now`: those active within the
/// last 300 seconds.
pub open spec fn still_active(m: Map<ViewerKey, i64>, now: int) -> Map<ViewerKey, i64> {
    Map::new(|k: ViewerKey| m.contains_key(k) && m[k] >= now - 300, |k: ViewerKey| m[k])
}

proof fn lemma_map_has(s: Seq<(Seq<char>, Seq<char>, i64)>, i: int)
    requires
        keys_unique(s),
        0 <= i < s.len(),
    ensures
        viewer_map(s).contains_key(key_of(s[i])),
        viewer_map(s)[key_of(s[i])] == s[i].2,
    decreases s.len(),
{
    if i < s.len() - 1 {
        let t = s.drop_last();
        assert(t[i] == s[i]);
        assert(keys_unique(t)) by {
            assert forall|a: int, b: int| 0 <= a < b < t.len() implies key_of(#[trigger] t[a]) != key_of(#[trigger] t[b]) by {
                assert(t[a] == s[a] && t[b] == s[b]);
            }
        }
        lemma_map_has(t, i);
        assert(key_of(s[i]) != key_of(s[s.len() - 1]));
    }
}

proof fn lemma_map_dom(s: Seq<(Seq<char>, Seq<char>, i64)>, k: ViewerKey)
    ensures
        viewer_map(s).contains_key(k) <==> exists|i: int| 0 <= i < s.len() && key_of(s[i]) == k,
    decreases s.len(),
{
    if s.len() > 0 {
        let t = s.drop_last();
        lemma_map_dom(t, k);
        if viewer_map(s).contains_key(k) {
            if key_of(s.last()) == k {
                assert(key_of(s[s.len() - 1]) == k);
            } else {
                let i = choose|i: int| 0 <= i < t.len() && key_of(t[i]) == k;
                assert(key_of(s[i]) == k);
            }
        }
        if exists|i: int| 0 <= i < s.len() && key_of(s[i]) == k {
            let i = choose|i: int| 0 <= i < s.len() && key_of(s[i]) == k;
            if i < s.len() - 1 {
                assert(key_of(t[i]) == k);
            }
        }
    }
}

/// Every map is the map of its entries: equality from the entries alone.
proof fn lemma_map_is(s: Seq<(Seq<char>, Seq<char>, i64)>, m: Map<ViewerKey, i64>)
    requires
        keys_unique(s),
        forall|i: int| 0 <= i < s.len() ==> m.contains_key(key_of(#[trigger] s[i])) && m[key_of(s[i])] == s[i].2,
        forall|k: ViewerKey| m.contains_key(k) ==> exists|i: int| 0 <= i < s.len() && key_of(s[i]) == k,
    ensures
        viewer_map(s) == m,
{
    assert forall|k: ViewerKey| viewer_map(s).contains_key(k) <==> m.contains_key(k) by {
        lemma_map_dom(s, k);
        if viewer_map(s).contains_key(k) {
            let i = choose|i: int| 0 <= i < s.len() && key_of(s[i]) == k;
            assert(m.contains_key(key_of(s[i])));
        }
    }
    assert forall|k: ViewerKey| viewer_map(s).contains_key(k) implies viewer_map(s)[k] == m[k] by {
        lemma_map_dom(s, k);
        let i = choose|i: int| 0 <= i < s.len() && key_of(s[i]) == k;
        lemma_map_has(s, i);
        assert(m[key_of(s[i])] == s[i].2);
    }
    assert(viewer_map(s) =~= m);
}

/// The chatters seen lately, with the time of their last message.
pub struct ActiveViewers {
    entries: Vec<(String, String, i64)>,
}

impl View for ActiveViewers {
    type V = Map<ViewerKey, i64>;

    closed spec fn view(&self) -> Map<ViewerKey, i64> {
        viewer_map(entries_view(self.entries@))
    }
}

impl ActiveViewers {
    /// Each viewer is held once.
    pub closed spec fn wf(&self) -> bool {
        keys_unique(entries_view(self.entries@))
    }

    /// No viewer yet.
    pub fn new() -> (r: Self)
        ensures
            r.wf(),
            r@ == Map::<ViewerKey, i64>::empty(),
    {
        let r = ActiveViewers { entries: Vec::new() };
        assert(entries_view(r.entries@) =~= Seq::<(Seq<char>, Seq<char>, i64)>::empty());
        r
    }

    /// The number of viewers held.
    pub fn len(&self) -> (r: usize)
        requires
            self.wf(),
        ensures
            r == self@.len(),
    {
        proof {
            self.lemma_len();
        }
        self.entries.len()
    }

    proof fn lemma_len(&self)
        requires
            self.wf(),
        ensures
            self@.dom().finite(),
            self@.len() == self.entries@.len(),
    {
        let s = entries_view(self.entries@);
        lemma_map_len(s);
    }

    /// A chat message from `username` in `channel` at `now`: the viewer is
    /// active as of `now`.
    pub fn record(&mut self, channel: &str, username: &str, now: i64)
        requires
            old(self).wf(),
        ensures
            final(self).wf(),
            final(self)@ == old(self)@.insert((channel@, username@), now),
    {
        let ghost s = entries_view(self.entries@);
        let ghost k = (channel@, username@);
        let mut i: usize = 0;
        while i < self.entries.len()
            invariant
                i <= self.entries@.len(),
                s == entries_view(self.entries@),
                self.entries@ == old(self).entries@,
                keys_unique(s),
                k == (channel@, username@),
                forall|j: int| 0 <= j < i ==> key_of(#[trigger] s[j]) != k,
            decreases self.entries.len() - i,
        {
            let same = same_text(self.entries[i].0.as_str(), channel)
                && same_text(self.entries[i].1.as_str(), username);
            assert(s[i as int] == (self.entries@[i as int].0@, self.entries@[i as int].1@, self.entries@[i as int].2));
            if same {
                let c = self.entries[i].0.clone();
                let u = self.entries[i].1.clone();
                self.entries.set(i, (c, u, now));
                proof {
                    let s2 = entries_view(self.entries@);
                    assert(s2 =~= s.update(i as int, (k.0, k.1, now)));
                    assert(keys_unique(s2)) by {
                        assert forall|a: int, b: int| 0 <= a < b < s2.len() implies key_of(#[trigger] s2[a]) != key_of(#[trigger] s2[b]) by {
                            assert(key_of(s2[a]) == key_of(s[a]));
                            assert(key_of(s2[b]) == key_of(s[b]));
                        }
                    }
                    let m = viewer_map(s).insert(k, now);
                    assert forall|j: int| 0 <= j < s2.len() implies m.contains_key(key_of(#[trigger] s2[j])) && m[key_of(s2[j])] == s2[j].2 by {
                        if j != i {
                            lemma_map_has(s, j);
                        }
                    }
                    assert forall|kk: ViewerKey| m.contains_key(kk) implies exists|j: int| 0 <= j < s2.len() && key_of(s2[j]) == kk by {
                        if kk != k {
                            lemma_map_dom(s, kk);
                            let j = choose|j: int| 0 <= j < s.len() && key_of(s[j]) == kk;
                            assert(key_of(s2[j]) == kk);
                        } else {
                            assert(key_of(s2[i as int]) == kk);
                        }
                    }
                    lemma_map_is(s2, m);
                }
                return;
            }
            i = i + 1;
        }
        self.entries.push((channel.to_owned(), username.to_owned(), now));
        proof {
            let s2 = entries_view(self.entries@);
            assert(s2 =~= s.push((k.0, k.1, now)));
            assert(s2.drop_last() =~= s);
            assert(keys_unique(s2)) by {
                assert forall|a: int, b: int| 0 <= a < b < s2.len() implies key_of(#[trigger] s2[a]) != key_of(#[trigger] s2[b]) by {
                    if b == s.len() {
                        assert(s2[a] == s[a]);
                    } else {
                        assert(s2[a] == s[a] && s2[b] == s[b]);
                    }
                }
            }
        }
    }

    /// The minute tick at `now`: viewers silent for more than 300 seconds
    /// are dropped, and the remaining ones are returned, each once, to be
    /// awarded a minute of watchtime.
    pub fn tick(&mut self, now: i64) -> (r: Vec<(String, String)>)
        requires
            old(self).wf(),
            now >= i64::MIN + 300,
        ensures
            final(self).wf(),
            final(self)@ == still_active(old(self)@, now as int),
            r@.map_values(|p: (String, String)| (p.0@, p.1@)).no_duplicates(),
            forall|k: ViewerKey| final(self)@.contains_key(k) <==> r@.map_values(
                |p: (String, String)| (p.0@, p.1@),
            ).contains(k),
    {
        let cutoff = now - 300;
        let ghost s = entries_view(self.entries@);
        let ghost m = viewer_map(s);
        let mut kept: Vec<(String, String, i64)> = Vec::new();
        let mut awarded: Vec<(String, String)> = Vec::new();
        let ghost mut idx: Seq<int> = Seq::empty();
        let mut i: usize = 0;
        while i < self.entries.len()
            invariant
                i <= self.entries@.len(),
                s == entries_view(self.entries@),
                keys_unique(s),
                m == viewer_map(s),
                cutoff == now - 300,
                idx.len() == kept@.len(),
                awarded@.len() == kept@.len(),
                forall|j: int| 0 <= j < idx.len() ==> 0 <= #[trigger] idx[j] < i,
                forall|a: int, b: int| 0 <= a < b < idx.len() ==> #[trigger] idx[a] < #[trigger] idx[b],
                forall|j: int| 0 <= j < idx.len() ==> entries_view(kept@)[j] == s[#[trigger] idx[j]]
                    && s[idx[j]].2 >= cutoff,
                forall|j: int| 0 <= j < idx.len() ==> (#[trigger] awarded@[j]).0@ == s[idx[j]].0
                    && awarded@[j].1@ == s[idx[j]].1,
                forall|t: int| 0 <= t < i && s[t].2 >= cutoff ==> exists|j: int| 0 <= j < idx.len() && #[trigger] idx[j] == t,
            decreases self.entries.len() - i,
        {
            assert(s[i as int] == (self.entries@[i as int].0@, self.entries@[i as int].1@, self.entries@[i as int].2));
            if self.entries[i].2 >= cutoff {
                let e = &self.entries[i];
                kept.push((e.0.clone(), e.1.clone(), e.2));
                awarded.push((e.0.clone(), e.1.clone()));
                proof {
                    let old_idx = idx;
                    idx = idx.push(i as int);
                    assert(entries_view(kept@)[idx.len() - 1] == s[i as int]);
                    assert forall|t: int| 0 <= t < i + 1 && s[t].2 >= cutoff implies exists|j: int| 0 <= j < idx.len() && #[trigger] idx[j] == t by {
                        if t == i {
                            assert(idx[idx.len() - 1] == t);
                        } else {
                            let j = choose|j: int| 0 <= j < old_idx.len() && #[trigger] old_idx[j] == t;
                            assert(idx[j] == old_idx[j]);
                        }
                    }
                }
            }
            i = i + 1;
        }
        let ghost s2 = entries_view(kept@);
        let ghost target = still_active(m, now as int);
        proof {
            assert(keys_unique(s2)) by {
                assert forall|a: int, b: int| 0 <= a < b < s2.len() implies key_of(#[trigger] s2[a]) != key_of(#[trigger] s2[b]) by {
                    assert(s2[a] == s[idx[a]] && s2[b] == s[idx[b]]);
                    assert(idx[a] < idx[b]);
                }
            }
            assert forall|j: int| 0 <= j < s2.len() implies target.contains_key(key_of(#[trigger] s2[j])) && target[key_of(s2[j])] == s2[j].2 by {
                assert(s2[j] == s[idx[j]]);
                lemma_map_has(s, idx[j]);
            }
            assert forall|kk: ViewerKey| target.contains_key(kk) implies exists|j: int| 0 <= j < s2.len() && key_of(s2[j]) == kk by {
                lemma_map_dom(s, kk);
                let t = choose|t: int| 0 <= t < s.len() && key_of(s[t]) == kk;
                lemma_map_has(s, t);
                let j = choose|j: int| 0 <= j < idx.len() && #[trigger] idx[j] == t;
                assert(key_of(s2[j]) == kk);
            }
            lemma_map_is(s2, target);
            let av = awarded@.map_values(|p: (String, String)| (p.0@, p.1@));
            assert forall|j: int| 0 <= j < av.len() implies av[j] == key_of(#[trigger] s2[j]) by {
                assert(awarded@[j].0@ == s[idx[j]].0);
            }
            assert(av.no_duplicates()) by {
                assert forall|a: int, b: int| 0 <= a < av.len() && 0 <= b < av.len() && a != b implies av[a] != av[b] by {
                    assert(av[a] == key_of(s2[a]) && av[b] == key_of(s2[b]));
                }
            }
            assert forall|kk: ViewerKey| target.contains_key(kk) <==> av.contains(kk) by {
                if target.contains_key(kk) {
                    let j = choose|j: int| 0 <= j < s2.len() && key_of(s2[j]) == kk;
                    assert(av[j] == kk);
                }
                if av.contains(kk) {
                    let j = choose|j: int| 0 <= j < av.len() && av[j] == kk;
                    assert(target.contains_key(key_of(s2[j])));
                }
            }
        }
        self.entries = kept;
        awarded
    }
}

proof fn lemma_map_len(s: Seq<(Seq<char>, Seq<char>, i64)>)
    requires
        keys_unique(s),
    ensures
        viewer_map(s).dom().finite(),
        viewer_map(s).len() == s.len(),
    decreases s.len(),
{
    if s.len() > 0 {
        let t = s.drop_last();
        assert(keys_unique(t)) by {
            assert forall|a: int, b: int| 0 <= a < b < t.len() implies key_of(#[trigger] t[a]) != key_of(#[trigger] t[b]) by {
                assert(t[a] == s[a] && t[b] == s[b]);
            }
        }
        lemma_map_len(t);
        lemma_map_dom(t, key_of(s.last()));
        if viewer_map(t).contains_key(key_of(s.last())) {
            let i = choose|i: int| 0 <= i < t.len() && key_of(t[i]) == key_of(s.last());
            assert(key_of(s[i]) == key_of(s[s.len() - 1]));
        }
    }
}

/// Dropping silent viewers twice at the same time drops nothing more.
pub proof fn lemma_tick_settles(m: Map<ViewerKey, i64>, now: int)
    ensures
        still_active(still_active(m, now), now) == still_active(m, now),
{
    assert(still_active(still_active(m, now), now) =~= still_active(m, now));
}

/// A viewer who just chatted is awarded at the next tick, as long as it
/// comes within 300 seconds.
pub proof fn lemma_recorded_is_active(m: Map<ViewerKey, i64>, k: ViewerKey, seen: int, now: int)
    requires
        now - 300 <= seen,
        seen <= i64::MAX,
        i64::MIN <= seen,
    ensures
        still_active(m.insert(k, seen as i64), now).contains_key(k),
{
}

/// Coins awarded per minute of watching.
pub const WATCH_MINUTE_COINS: i64 = 10;

/// What a viewer still watching at a minute tick is given, as calls to the
/// plugins that keep each count.
pub enum MinuteAward {
    /// The watchtime plugin's `add_time`.
    Time { channel: String, username: String, minutes: i64 },
    /// The levels plugin's `add_xp`.
    Xp { channel: String, username: String, amount: i64, reason: String },
    /// The currency plugin's `add_currency`, keyed by the user name as the
    /// user id.
    Coins { user_id: String, username: String, amount: i64, reason: String },
}

/// The awards of one viewer at a minute tick, in the order they are made: one
/// minute of watchtime, [`WATCH_MINUTE_XP`] XP and [`WATCH_MINUTE_COINS`]
/// coins, both for "Watching stream".
pub fn minute_awards(channel: &str, username: &str) -> (r: Vec<MinuteAward>)
    ensures
        r@.len() == 3,
        r@[0] matches MinuteAward::Time { channel: c, username: u, minutes }
            && c@ == channel@ && u@ == username@ && minutes == 1,
        r@[1] matches MinuteAward::Xp { channel: c, username: u, amount, reason }
            && c@ == channel@ && u@ == username@ && amount == 5 && reason@ == "Watching stream"@,
        r@[2] matches MinuteAward::Coins { user_id: i, username: u, amount, reason }
            && i@ == username@ && u@ == username@ && amount == 10 && reason@ == "Watching stream"@,
{
    let mut r: Vec<MinuteAward> = Vec::new();
    r.push(MinuteAward::Time { channel: channel.to_owned(), username: username.to_owned(), minutes: 1 });
    r.push(
        MinuteAward::Xp {
            channel: channel.to_owned(),
            username: username.to_owned(),
            amount: WATCH_MINUTE_XP,
            reason: "Watching stream".to_owned(),
        },
    );
    r.push(
        MinuteAward::Coins {
            user_id: username.to_owned(),
            username: username.to_owned(),
            amount: WATCH_MINUTE_COINS,
            reason: "Watching stream".to_owned(),
        },
    );
    r
}

/// The user a `!watchtime` message asks about: the first argument without
/// leading `@`, or the sender; `None` when the message is not the command.
pub open spec fn watchtime_target_spec(m: Seq<char>, sender: Seq<char>) -> Option<Seq<char>> {
    if has_prefix(m, "!watchtime"@) {
        let parts = split_ws(m);
        Some(
            if parts.len() > 1 {
                trim_start_char(parts[1], '@')
            } else {
                sender
            },
        )
    } else {
        None
    }
}

/// `k` copies of `c`.
pub open spec fn repeat_char(c: char, k: int) -> Seq<char> {
    Seq::new(k as nat, |_i: int| c)
}

/// `s` is `k` copies of `c` followed by `t`, and `t` does not begin with `c`.
pub open spec fn leading_run_then(s: Seq<char>, c: char, k: int, t: Seq<char>) -> bool {
    &&& 0 <= k <= s.len()
    &&& s == repeat_char(c, k) + t
    &&& !(t.len() > 0 && t[0] == c)
}

/// How many times `c` repeats at the start of `s`.
pub open spec fn leading_count(s: Seq<char>, c: char) -> int
    decreases s.len(),
{
    if s.len() > 0 && s[0] == c {
        1 + leading_count(s.drop_first(), c)
    } else {
        0
    }
}

proof fn lemma_trim_start(s: Seq<char>, c: char)
    ensures
        leading_run_then(s, c, leading_count(s, c), trim_start_char(s, c)),
    decreases s.len(),
{
    if s.len() > 0 && s[0] == c {
        lemma_trim_start(s.drop_first(), c);
        let t = trim_start_char(s, c);
        let k = leading_count(s.drop_first(), c);
        assert(s.drop_first() == repeat_char(c, k) + t);
        assert(s =~= repeat_char(c, k + 1) + t) by {
            assert forall|i: int| 0 <= i < s.len() implies s[i] == (repeat_char(c, k + 1) + t)[i] by {
                if i > 0 {
                    assert(s[i] == s.drop_first()[i - 1]);
                }
            }
        }
    } else {
        assert(s =~= repeat_char(c, 0) + s);
    }
}

/// Whose watchtime `!watchtime` asks for: with an argument, the user it
/// names, with its leading run of `@`s taken off and nothing else (and so
/// the same whoever asks);
/// without one, the sender's own. Other messages are not the command.
pub proof fn lemma_watchtime_target(m: Seq<char>, sender: Seq<char>, other: Seq<char>)
    ensures
        !has_prefix(m, "!watchtime"@) ==> watchtime_target_spec(m, sender) is None,
        has_prefix(m, "!watchtime"@) && split_ws(m).len() <= 1 ==> watchtime_target_spec(m, sender)
            == Some(sender),
        has_prefix(m, "!watchtime"@) && split_ws(m).len() > 1 ==> (watchtime_target_spec(m, sender) matches Some(t)
            && leading_run_then(split_ws(m)[1], '@', leading_count(split_ws(m)[1], '@'), t)),
        split_ws(m).len() > 1 ==> watchtime_target_spec(m, sender) == watchtime_target_spec(m, other),
{
    if split_ws(m).len() > 1 {
        lemma_trim_start(split_ws(m)[1], '@');
    }
}

/// Reads a `!watchtime` message (see [`watchtime_target_spec`]).
pub fn watchtime_target(message: &str, sender: &str) -> (r: Option<String>)
    ensures
        crate::text::opt_str(r) == watchtime_target_spec(message@, sender@),
{
    let m = chars_of(message);
    if !starts_with_str(&m, "!watchtime") {
        return None;
    }
    let parts = split_whitespace(&m);
    if parts.len() > 1 {
        let t = strip_leading(&parts[1], '@');
        Some(string_of(&t))
    } else {
        Some(sender.to_owned())
    }
}

/// `a / b` rounded toward zero, as Rust divides integers.
pub open spec fn div_toward_zero(a: int, b: int) -> int {
    if a >= 0 {
        a / b
    } else {
        -((-a) / b)
    }
}

/// The remainder that goes with [`div_toward_zero`].
pub open spec fn rem_toward_zero(a: int, b: int) -> int {
    a - b * div_toward_zero(a, b)
}

/// Hours and minutes of a total in minutes, as `total / 60` and `total % 60`.
pub fn hours_minutes(total: i64) -> (r: (i64, i64))
    ensures
        r.0 == div_toward_zero(total as int, 60),
        r.1 == rem_toward_zero(total as int, 60),
{
    if total >= 0 {
        (total / 60, total % 60)
    } else {
        let mag: u64 = ((0i128 - total as i128) as u64);
        let h = mag / 60;
        let m = mag % 60;
        ((0i64 - h as i64), (0i64 - m as i64))
    }
}

/// The answer to `!watchtime`: `total` is the stored watchtime of `target`,
/// if it has one; the sender is addressed as "you" when the target is the
/// sender, ignoring case.
pub open spec fn watchtime_reply_spec(sender: Seq<char>, target: Seq<char>, total: Option<i64>) -> Seq<char> {
    let own = lowercase(target) == lowercase(sender);
    match total {
        Some(t) => {
            let hm = " hours and "@;
            let h = decimal(div_toward_zero(t as int, 60));
            let mi = decimal(rem_toward_zero(t as int, 60));
            if own {
                "@"@ + sender + " You have watched for "@ + h + hm + mi + " minutes! ⏱️"@
            } else {
                "@"@ + target + " has watched for "@ + h + hm + mi + " minutes! ⏱️"@
            }
        },
        None => if own {
            "@"@ + sender + " You haven't watched yet! Start watching to track your time. 👀"@
        } else {
            "@"@ + target + " hasn't watched yet! 👀"@
        },
    }
}

/// The answer to `!watchtime` (see [`watchtime_reply_spec`]).
pub fn watchtime_reply(sender: &str, target: &str, total: Option<i64>) -> (r: String)
    ensures
        r@ == watchtime_reply_spec(sender@, target@, total),
{
    let lt = to_lower(target);
    let ls = to_lower(sender);
    let own = same_text(lt.as_str(), ls.as_str());
    let mut m = chars_of("@");
    match total {
        Some(t) => {
            let (h, mi) = hours_minutes(t);
            if own {
                append_str(&mut m, sender);
                append_str(&mut m, " You have watched for ");
            } else {
                append_str(&mut m, target);
                append_str(&mut m, " has watched for ");
            }
            push_decimal_i64(&mut m, h);
            append_str(&mut m, " hours and ");
            push_decimal_i64(&mut m, mi);
            append_str(&mut m, " minutes! ⏱️");
        },
        None => {
            if own {
                append_str(&mut m, sender);
                append_str(&mut m, " You haven't watched yet! Start watching to track your time. 👀");
            } else {
                append_str(&mut m, target);
                append_str(&mut m, " hasn't watched yet! 👀");
            }
        },
    }
    assert(m@ =~= watchtime_reply_spec(sender@, target@, total));
    string_of(&m)
}

/// The earliest `last_seen` a statistics period counts: a day, a week or 30
/// days back from `now`; 0 (everything) for `all` or any other period.
pub open spec fn period_cutoff_spec(period: Seq<char>, now: int) -> int {
    if period == "day"@ {
        now - 86400
    } else if period == "week"@ {
        now - 604800
    } else if period == "month"@ {
        now - 2592000
    } else {
        0
    }
}

/// The cutoff of a statistics period (see [`period_cutoff_spec`]).
pub fn period_cutoff(period: &str, now: i64) -> (r: i64)
    requires
        now >= i64::MIN + 2592000,
    ensures
        r == period_cutoff_spec(period@, now as int),
{
    if same_text(period, "day") {
        now - 86400
    } else if same_text(period, "week") {
        now - 604800
    } else if same_text(period, "month") {
        now - 2592000
    } else {
        0
    }
}

/// The `LIKE` pattern of a watchtime search: the text anywhere in the name.
pub fn like_pattern(search: &str) -> (r: String)
    ensures
        r@ == "%"@ + search@ + "%"@,
{
    let mut m = chars_of("%");
    append_str(&mut m, search);
    append_str(&mut m, "%");
    string_of(&m)
}

} // verus!
