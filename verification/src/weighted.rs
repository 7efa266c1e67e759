//! Weighted draws: the prize wheel and card packs.
use vstd::prelude::*;
use rand::Rng;
use vstd::set_lib::{lemma_int_range, set_int_range};

verus! {

/// The sum of the first `k` weights.
pub open spec fn prefix_sum(w: Seq<i64>, k: int) -> int
    decreases k,
{
    if k <= 0 || w.len() == 0 {
        0
    } else if k > w.len() {
        prefix_sum(w, w.len() as int)
    } else {
        prefix_sum(w, k - 1) + w[k - 1]
    }
}

/// The sum of all weights.
pub open spec fn total_weight(w: Seq<i64>) -> int {
    prefix_sum(w, w.len() as int)
}

/// The index a roll lands on, scanning from `i` with what is left of the
/// roll: the first entry whose weight exceeds the remainder, after taking
/// off the weights passed; the first entry when none does.
pub open spec fn pick_from(w: Seq<i64>, roll: int, i: int) -> int
    decreases w.len() - i,
{
    if i < 0 || i >= w.len() {
        0
    } else if roll < w[i] {
        i
    } else {
        pick_from(w, roll - w[i], i + 1)
    }
}

/// The index that `roll` selects from the weights `w`.
pub open spec fn pick_spec(w: Seq<i64>, roll: int) -> int {
    pick_from(w, roll, 0)
}

/// Every roll below the total stays within `i64` while the weights are
/// taken off it, and the running sums fit in `i64`.
pub open spec fn weights_fit(w: Seq<i64>) -> bool {
    &&& forall|k: int| 0 <= k <= w.len() ==> i64::MIN <= #[trigger] prefix_sum(w, k) <= i64::MAX
    &&& forall|k: int| 0 <= k <= w.len() ==> total_weight(w) - 1 - #[trigger] prefix_sum(w, k) <= i64::MAX
}

/// A uniformly random number from `0` up to (not including) `n`
/// (`rand::thread_rng().gen_range(0..n)`, which panics on an empty range).
#[verifier::external_body]
fn random_below(n: i64) -> (r: i64)
    requires
        n > 0,
    ensures
        0 <= r < n,
{
    rand::thread_rng().gen_range(0..n)
}

/// The sum of the weights.
pub fn weight_total(w: &Vec<i64>) -> (r: i64)
    requires
        weights_fit(w@),
    ensures
        r == total_weight(w@),
{
    let mut t: i64 = 0;
    let mut i: usize = 0;
    while i < w.len()
        invariant
            i <= w@.len(),
            weights_fit(w@),
            t == prefix_sum(w@, i as int),
        decreases w.len() - i,
    {
        assert(prefix_sum(w@, i + 1) == prefix_sum(w@, i as int) + w@[i as int]);
        assert(i64::MIN <= prefix_sum(w@, i + 1) <= i64::MAX);
        t = t + w[i];
        i = i + 1;
    }
    t
}

/// The index `roll` selects (see [`pick_spec`]).
pub fn pick_weighted(w: &Vec<i64>, roll: i64) -> (r: usize)
    requires
        weights_fit(w@),
        0 <= roll < total_weight(w@),
    ensures
        r == pick_spec(w@, roll as int),
        w@.len() > 0 ==> r < w@.len(),
{
    let mut rest = roll;
    let mut i: usize = 0;
    while i < w.len()
        invariant
            i <= w@.len(),
            weights_fit(w@),
            0 <= roll < total_weight(w@),
            rest == roll - prefix_sum(w@, i as int),
            pick_from(w@, rest as int, i as int) == pick_spec(w@, roll as int),
        decreases w.len() - i,
    {
        if rest < w[i] {
            return i;
        }
        assert(prefix_sum(w@, i + 1) == prefix_sum(w@, i as int) + w@[i as int]);
        assert(total_weight(w@) - 1 - prefix_sum(w@, i + 1) <= i64::MAX);
        rest = rest - w[i];
        i = i + 1;
    }
    0
}

/// Spins the wheel: `None` without options; else a random roll below the
/// total weight, and the option it selects. A wheel whose options weigh
/// nothing in total cannot be spun (there is no roll to draw).
pub fn spin_wheel(weights: &Vec<i64>) -> (r: Option<usize>)
    requires
        weights_fit(weights@),
        weights@.len() > 0 ==> total_weight(weights@) > 0,
    ensures
        r is Some <==> weights@.len() > 0,
        r matches Some(i) ==> i < weights@.len() && exists|roll: int|
            0 <= roll < total_weight(weights@) && pick_spec(weights@, roll) == i,
        (forall|k: int| 0 <= k < weights@.len() ==> weights@[k] >= 0) ==> (r matches Some(i)
            ==> weights@[i as int] > 0),
{
    if weights.len() == 0 {
        return None;
    }
    let total = weight_total(weights);
    let roll = random_below(total);
    let i = pick_weighted(weights, roll);
    proof {
        if forall|k: int| 0 <= k < weights@.len() ==> weights@[k] >= 0 {
            if weights@[i as int] == 0 {
                lemma_zero_weight_never_picked(weights@, roll as int, i as int);
            }
        }
    }
    Some(i)
}

/// Items drawn from a pack: three, or as many as the pack has when fewer.
pub open spec fn draw_count(n: int) -> int {
    if n < 3 {
        n
    } else {
        3
    }
}

/// Opens a pack: [`draw_count`] independent weighted draws from its items.
pub fn open_pack(weights: &Vec<i64>) -> (r: Vec<usize>)
    requires
        weights_fit(weights@),
        weights@.len() > 0 ==> total_weight(weights@) > 0,
    ensures
        r@.len() == draw_count(weights@.len() as int),
        forall|j: int| 0 <= j < r@.len() ==> #[trigger] r@[j] < weights@.len() && exists|roll: int|
            0 <= roll < total_weight(weights@) && pick_spec(weights@, roll) == r@[j],
{
    let n: usize = if weights.len() < 3 {
        weights.len()
    } else {
        3
    };
    let mut out: Vec<usize> = Vec::new();
    let mut k: usize = 0;
    while k < n
        invariant
            k <= n,
            n == draw_count(weights@.len() as int),
            weights_fit(weights@),
            weights@.len() > 0 ==> total_weight(weights@) > 0,
            out@.len() == k,
            forall|j: int| 0 <= j < out@.len() ==> #[trigger] out@[j] < weights@.len() && exists|roll: int|
                0 <= roll < total_weight(weights@) && pick_spec(weights@, roll) == out@[j],
        decreases n - k,
    {
        let total = weight_total(weights);
        let roll = random_below(total);
        let i = pick_weighted(weights, roll);
        out.push(i);
        k = k + 1;
    }
    out
}

/// With weights that are not negative, a roll lands on the entry whose
/// share of the range `[0, total)` holds it: `i` is picked exactly when the
/// weights before it sum to at most the roll and those up to it to more.
pub proof fn lemma_pick_interval(w: Seq<i64>, roll: int, i: int)
    requires
        forall|k: int| 0 <= k < w.len() ==> w[k] >= 0,
        0 <= roll < total_weight(w),
        0 <= i < w.len(),
    ensures
        pick_spec(w, roll) == i <==> (prefix_sum(w, i) <= roll < prefix_sum(w, i + 1)),
{
    lemma_pick_from(w, roll, 0, i);
}

proof fn lemma_prefix_step(w: Seq<i64>, k: int)
    requires
        0 <= k < w.len(),
    ensures
        prefix_sum(w, k + 1) == prefix_sum(w, k) + w[k],
{
}

proof fn lemma_prefix_monotone(w: Seq<i64>, a: int, b: int)
    requires
        forall|k: int| 0 <= k < w.len() ==> w[k] >= 0,
        0 <= a <= b <= w.len(),
    ensures
        prefix_sum(w, a) <= prefix_sum(w, b),
    decreases b - a,
{
    if a < b {
        lemma_prefix_monotone(w, a, b - 1);
        lemma_prefix_step(w, b - 1);
    }
}

proof fn lemma_pick_from(w: Seq<i64>, roll: int, j: int, i: int)
    requires
        forall|k: int| 0 <= k < w.len() ==> w[k] >= 0,
        0 <= roll < total_weight(w),
        0 <= j <= i < w.len(),
        prefix_sum(w, j) <= roll,
    ensures
        pick_from(w, roll - prefix_sum(w, j), j) == i <==> (prefix_sum(w, i) <= roll < prefix_sum(w, i + 1)),
    decreases i - j,
{
    lemma_prefix_step(w, j);
    lemma_prefix_step(w, i);
    if roll - prefix_sum(w, j) < w[j] {
        if j < i {
            lemma_prefix_monotone(w, j + 1, i);
        }
    } else {
        if j < i {
            lemma_pick_from(w, roll, j + 1, i);
        } else {
            lemma_pick_beyond(w, roll, j + 1);
        }
    }
}

/// Past the entry where the roll falls, the scan never comes back to `i`.
proof fn lemma_pick_beyond(w: Seq<i64>, roll: int, j: int)
    requires
        forall|k: int| 0 <= k < w.len() ==> w[k] >= 0,
        0 <= roll < total_weight(w),
        0 < j <= w.len(),
        prefix_sum(w, j) <= roll,
    ensures
        pick_from(w, roll - prefix_sum(w, j), j) != j - 1,
    decreases w.len() - j,
{
    if j < w.len() {
        lemma_prefix_step(w, j);
        if roll - prefix_sum(w, j) >= w[j] {
            lemma_pick_beyond_gt(w, roll, j + 1, j - 1);
        }
    } else {
        assert(prefix_sum(w, j) == total_weight(w));
    }
}

proof fn lemma_pick_beyond_gt(w: Seq<i64>, roll: int, j: int, i: int)
    requires
        forall|k: int| 0 <= k < w.len() ==> w[k] >= 0,
        0 <= roll < total_weight(w),
        0 <= i < j <= w.len(),
        prefix_sum(w, j) <= roll,
    ensures
        pick_from(w, roll - prefix_sum(w, j), j) != i,
    decreases w.len() - j,
{
    if j < w.len() {
        lemma_prefix_step(w, j);
        if roll - prefix_sum(w, j) >= w[j] {
            lemma_pick_beyond_gt(w, roll, j + 1, i);
        }
    } else {
        assert(prefix_sum(w, j) == total_weight(w));
    }
}

/// The rolls below the total that select `i`.
pub open spec fn rolls_selecting(w: Seq<i64>, i: int) -> Set<int> {
    Set::new(|roll: int| 0 <= roll < total_weight(w) && pick_spec(w, roll) == i)
}

/// With weights that are not negative, option `i` is selected by exactly
/// `w[i]` of the `total_weight(w)` possible rolls, so a roll drawn
/// uniformly below the total picks it with probability `w[i] / total`.
pub proof fn lemma_selection_share(w: Seq<i64>, i: int)
    requires
        forall|k: int| 0 <= k < w.len() ==> w[k] >= 0,
        0 <= i < w.len(),
    ensures
        rolls_selecting(w, i).finite(),
        rolls_selecting(w, i).len() == w[i],
{
    lemma_prefix_step(w, i);
    lemma_prefix_monotone(w, 0, i);
    lemma_prefix_monotone(w, i + 1, w.len() as int);
    let lo = prefix_sum(w, i);
    let hi = prefix_sum(w, i + 1);
    assert forall|roll: int| rolls_selecting(w, i).contains(roll) <==> set_int_range(lo, hi).contains(roll) by {
        if 0 <= roll < total_weight(w) {
            lemma_pick_interval(w, roll, i);
        }
        assert(prefix_sum(w, 0) == 0);
    }
    assert(rolls_selecting(w, i) =~= set_int_range(lo, hi));
    lemma_int_range(lo, hi);
}

/// With weights that are not negative, an option of weight 0 never wins.
pub proof fn lemma_zero_weight_never_picked(w: Seq<i64>, roll: int, i: int)
    requires
        forall|k: int| 0 <= k < w.len() ==> w[k] >= 0,
        0 <= roll < total_weight(w),
        0 <= i < w.len(),
        w[i] == 0,
    ensures
        pick_spec(w, roll) != i,
{
    lemma_pick_interval(w, roll, i);
    lemma_prefix_step(w, i);
}

} // verus!
