//! Character-level text handling shared by the chat and HTTP logic: chat
//! tokens, prefixes, trimming, decimal numbers.
use vstd::prelude::*;
use vstd::utf8::{encode_scalar, encode_utf8};

verus! {

/// The Unicode `White_Space` property, which `str::split_whitespace` and
/// `str::trim` split and trim on.
pub open spec fn is_ws(c: char) -> bool {
    ||| ('\u{9}' <= c && c <= '\u{d}')
    ||| c == ' '
    ||| c == '\u{85}'
    ||| c == '\u{a0}'
    ||| c == '\u{1680}'
    ||| ('\u{2000}' <= c && c <= '\u{200a}')
    ||| c == '\u{2028}'
    ||| c == '\u{2029}'
    ||| c == '\u{202f}'
    ||| c == '\u{205f}'
    ||| c == '\u{3000}'
}

/// Executable form of [`is_ws`].
pub fn is_whitespace(c: char) -> (r: bool)
    ensures
        r == is_ws(c),
{
    ('\u{9}' <= c && c <= '\u{d}') || c == ' ' || c == '\u{85}' || c == '\u{a0}' || c == '\u{1680}'
        || ('\u{2000}' <= c && c <= '\u{200a}') || c == '\u{2028}' || c == '\u{2029}' || c
        == '\u{202f}' || c == '\u{205f}' || c == '\u{3000}'
}

/// The characters of `s`, in order.
pub fn chars_of(s: &str) -> (r: Vec<char>)
    ensures
        r@ == s@,
{
    let n = s.unicode_len();
    let mut v: Vec<char> = Vec::new();
    let mut i: usize = 0;
    while i < n
        invariant
            n == s@.len(),
            i <= n,
            v@ == s@.take(i as int),
        decreases n - i,
    {
        let c = s.get_char(i);
        v.push(c);
        i = i + 1;
        assert(v@ =~= s@.take(i as int));
    }
    assert(v@ =~= s@);
    v
}

/// The text held by `o`, if any.
pub open spec fn opt_str(o: Option<String>) -> Option<Seq<char>> {
    match o {
        Some(v) => Some(v@),
        None => None,
    }
}

/// Appends one character to a `String` (`String::push`).
#[verifier::external_body]
fn push_char(s: &mut String, c: char)
    ensures
        final(s)@ == old(s)@.push(c),
{
    s.push(c);
}

/// The `String` made of the characters `v`.
pub fn string_of(v: &Vec<char>) -> (r: String)
    ensures
        r@ == v@,
{
    let mut s = String::new();
    let mut i: usize = 0;
    while i < v.len()
        invariant
            i <= v.len(),
            s@ == v@.take(i as int),
        decreases v.len() - i,
    {
        push_char(&mut s, v[i]);
        i = i + 1;
        assert(s@ =~= v@.take(i as int));
    }
    assert(s@ =~= v@);
    s
}

/// Appends the characters `w` to `out`.
pub fn append_chars(out: &mut Vec<char>, w: &Vec<char>)
    ensures
        final(out)@ == old(out)@ + w@,
{
    let mut i: usize = 0;
    while i < w.len()
        invariant
            i <= w.len(),
            out@ == old(out)@ + w@.take(i as int),
        decreases w.len() - i,
    {
        out.push(w[i]);
        i = i + 1;
        assert(out@ =~= old(out)@ + w@.take(i as int));
    }
    assert(w@.take(w@.len() as int) =~= w@);
}

/// Appends the characters of `s` to `out`.
pub fn append_str(out: &mut Vec<char>, s: &str)
    ensures
        final(out)@ == old(out)@ + s@,
{
    let w = chars_of(s);
    append_chars(out, &w);
}

/// The longest prefix of `s` without whitespace.
pub open spec fn word_prefix(s: Seq<char>) -> Seq<char>
    decreases s.len(),
{
    if s.len() == 0 || is_ws(s[0]) {
        Seq::empty()
    } else {
        seq![s[0]] + word_prefix(s.drop_first())
    }
}

/// The whitespace-separated words of `s` (`str::split_whitespace`).
pub open spec fn split_ws(s: Seq<char>) -> Seq<Seq<char>>
    decreases s.len(),
{
    if s.len() == 0 {
        Seq::empty()
    } else if is_ws(s[0]) {
        split_ws(s.drop_first())
    } else {
        let w = word_prefix(s);
        proof {
            lemma_word_prefix_len(s);
        }
        seq![w] + split_ws(s.skip(w.len() as int))
    }
}

pub proof fn lemma_word_prefix_len(s: Seq<char>)
    ensures
        word_prefix(s).len() <= s.len(),
        s.len() > 0 && !is_ws(s[0]) ==> word_prefix(s).len() >= 1,
        forall|k: int| 0 <= k < word_prefix(s).len() ==> word_prefix(s)[k] == s[k] && !is_ws(s[k]),
        word_prefix(s).len() < s.len() ==> is_ws(s[word_prefix(s).len() as int]),
    decreases s.len(),
{
    if s.len() > 0 && !is_ws(s[0]) {
        lemma_word_prefix_len(s.drop_first());
        let t = s.drop_first();
        assert forall|k: int| 0 <= k < word_prefix(s).len() implies word_prefix(s)[k] == s[k]
            && !is_ws(s[k]) by {
            if k > 0 {
                assert(word_prefix(s)[k] == word_prefix(t)[k - 1]);
                assert(t[k - 1] == s[k]);
            }
        }
    }
}

/// `word_prefix` of `s` is the run of non-whitespace characters up to the
/// first whitespace at `j` (or the end).
proof fn lemma_word_prefix_is(s: Seq<char>, j: int)
    requires
        0 <= j <= s.len(),
        forall|k: int| 0 <= k < j ==> !is_ws(s[k]),
        j == s.len() || is_ws(s[j]),
    ensures
        word_prefix(s) == s.take(j),
    decreases s.len(),
{
    if j == 0 {
        assert(s.take(0) =~= Seq::<char>::empty());
    } else {
        lemma_word_prefix_is(s.drop_first(), j - 1);
        assert(s.take(j) =~= seq![s[0]] + s.drop_first().take(j - 1));
    }
}

/// Splits `s` into its whitespace-separated words.
pub fn split_whitespace(s: &Vec<char>) -> (r: Vec<Vec<char>>)
    ensures
        r@.len() == split_ws(s@).len(),
        forall|i: int| 0 <= i < r@.len() ==> #[trigger] r@[i]@ == split_ws(s@)[i],
{
    let mut out: Vec<Vec<char>> = Vec::new();
    let ghost mut acc: Seq<Seq<char>> = Seq::empty();
    let mut i: usize = 0;
    let n = s.len();
    assert(s@.skip(0) =~= s@);
    while i < n
        invariant
            n == s@.len(),
            i <= n,
            out@.len() == acc.len(),
            forall|k: int| 0 <= k < out@.len() ==> #[trigger] out@[k]@ == acc[k],
            acc + split_ws(s@.skip(i as int)) == split_ws(s@),
        decreases n - i,
    {
        if is_whitespace(s[i]) {
            assert(s@.skip(i as int).drop_first() =~= s@.skip(i + 1));
            i = i + 1;
        } else {
            let start = i;
            let mut w: Vec<char> = Vec::new();
            while i < n && !is_whitespace(s[i])
                invariant
                    n == s@.len(),
                    start <= i <= n,
                    w@ == s@.subrange(start as int, i as int),
                    forall|k: int| start <= k < i ==> !is_ws(s@[k]),
                decreases n - i,
            {
                w.push(s[i]);
                i = i + 1;
                assert(w@ =~= s@.subrange(start as int, i as int));
            }
            proof {
                let t = s@.skip(start as int);
                lemma_word_prefix_is(t, i - start);
                assert(t.take(i - start) =~= s@.subrange(start as int, i as int));
                assert(t.skip((i - start) as int) =~= s@.skip(i as int));
                assert(split_ws(t) == seq![w@] + split_ws(s@.skip(i as int)));
                assert(acc + split_ws(t) =~= acc.push(w@) + split_ws(s@.skip(i as int)));
                acc = acc.push(w@);
            }
            out.push(w);
        }
    }
    proof {
        assert(s@.skip(n as int) =~= Seq::<char>::empty());
        assert(acc =~= split_ws(s@));
    }
    out
}

/// `s` begins with `p`.
pub open spec fn has_prefix(s: Seq<char>, p: Seq<char>) -> bool {
    p.len() <= s.len() && s.take(p.len() as int) == p
}

/// Whether `s` begins with the characters `p`.
pub fn starts_with(s: &Vec<char>, p: &Vec<char>) -> (r: bool)
    ensures
        r == has_prefix(s@, p@),
{
    if p.len() > s.len() {
        return false;
    }
    let mut i: usize = 0;
    while i < p.len()
        invariant
            p@.len() <= s@.len(),
            i <= p@.len(),
            forall|k: int| 0 <= k < i ==> s@[k] == p@[k],
        decreases p.len() - i,
    {
        if s[i] != p[i] {
            assert(s@.take(p@.len() as int)[i as int] != p@[i as int]);
            return false;
        }
        i = i + 1;
    }
    assert(s@.take(p@.len() as int) =~= p@);
    true
}

/// Whether `s` begins with the string `p`.
pub fn starts_with_str(s: &Vec<char>, p: &str) -> (r: bool)
    ensures
        r == has_prefix(s@, p@),
{
    let pc = chars_of(p);
    starts_with(s, &pc)
}

/// The characters `v[from..to]`.
pub fn slice_chars(v: &Vec<char>, from: usize, to: usize) -> (r: Vec<char>)
    requires
        from <= to <= v@.len(),
    ensures
        r@ == v@.subrange(from as int, to as int),
{
    let mut out: Vec<char> = Vec::new();
    let mut i = from;
    while i < to
        invariant
            from <= i <= to <= v@.len(),
            out@ == v@.subrange(from as int, i as int),
        decreases to - i,
    {
        out.push(v[i]);
        i = i + 1;
        assert(out@ =~= v@.subrange(from as int, i as int));
    }
    out
}

/// Number of leading whitespace characters of `s`.
pub open spec fn leading_ws(s: Seq<char>) -> nat
    decreases s.len(),
{
    if s.len() > 0 && is_ws(s[0]) {
        1 + leading_ws(s.drop_first())
    } else {
        0
    }
}

/// Number of trailing whitespace characters of `s`.
pub open spec fn trailing_ws(s: Seq<char>) -> nat
    decreases s.len(),
{
    if s.len() > 0 && is_ws(s.last()) {
        1 + trailing_ws(s.drop_last())
    } else {
        0
    }
}

/// `s` without leading whitespace (`str::trim_start`).
pub open spec fn trim_start_spec(s: Seq<char>) -> Seq<char> {
    s.skip(leading_ws(s) as int)
}

/// `s` without trailing whitespace (`str::trim_end`).
pub open spec fn trim_end_spec(s: Seq<char>) -> Seq<char> {
    s.take(s.len() - trailing_ws(s))
}

/// `s` without leading and trailing whitespace (`str::trim`).
pub open spec fn trim_spec(s: Seq<char>) -> Seq<char> {
    trim_end_spec(trim_start_spec(s))
}

proof fn lemma_leading_ws(s: Seq<char>, j: int)
    requires
        0 <= j <= s.len(),
        forall|k: int| 0 <= k < j ==> is_ws(s[k]),
        j == s.len() || !is_ws(s[j]),
    ensures
        leading_ws(s) == j,
    decreases s.len(),
{
    if j > 0 {
        lemma_leading_ws(s.drop_first(), j - 1);
    }
}

proof fn lemma_trailing_ws(s: Seq<char>, j: int)
    requires
        0 <= j <= s.len(),
        forall|k: int| j <= k < s.len() ==> is_ws(s[k]),
        j == 0 || !is_ws(s[j - 1]),
    ensures
        trailing_ws(s) == s.len() - j,
    decreases s.len(),
{
    if j < s.len() {
        lemma_trailing_ws(s.drop_last(), j);
    }
}

/// `v` without leading whitespace.
pub fn trim_start(v: &Vec<char>) -> (r: Vec<char>)
    ensures
        r@ == trim_start_spec(v@),
{
    let mut i: usize = 0;
    while i < v.len() && is_whitespace(v[i])
        invariant
            i <= v@.len(),
            forall|k: int| 0 <= k < i ==> is_ws(v@[k]),
        decreases v.len() - i,
    {
        i = i + 1;
    }
    proof {
        lemma_leading_ws(v@, i as int);
    }
    let r = slice_chars(v, i, v.len());
    assert(r@ =~= v@.skip(i as int));
    r
}

/// `v` without trailing whitespace.
pub fn trim_end(v: &Vec<char>) -> (r: Vec<char>)
    ensures
        r@ == trim_end_spec(v@),
{
    let mut j: usize = v.len();
    while j > 0 && is_whitespace(v[j - 1])
        invariant
            j <= v@.len(),
            forall|k: int| j <= k < v@.len() ==> is_ws(v@[k]),
        decreases j,
    {
        j = j - 1;
    }
    proof {
        lemma_trailing_ws(v@, j as int);
    }
    let r = slice_chars(v, 0, j);
    assert(r@ =~= v@.take(j as int));
    r
}

/// `v` without leading and trailing whitespace.
pub fn trim(v: &Vec<char>) -> (r: Vec<char>)
    ensures
        r@ == trim_spec(v@),
{
    let t = trim_start(v);
    trim_end(&t)
}


/// `c` is an ASCII decimal digit.
pub open spec fn is_digit(c: char) -> bool {
    '0' <= c && c <= '9'
}

/// Every character of `s` is an ASCII decimal digit.
pub open spec fn all_digits(s: Seq<char>) -> bool {
    forall|k: int| 0 <= k < s.len() ==> is_digit(#[trigger] s[k])
}

/// The number that the decimal digits `s` spell.
pub open spec fn digits_value(s: Seq<char>) -> int
    decreases s.len(),
{
    if s.len() == 0 {
        0
    } else {
        digits_value(s.drop_last()) * 10 + (s.last() as int - '0' as int)
    }
}

/// The magnitude part of an integer literal: one optional leading `+`, then
/// one or more digits.
pub open spec fn parse_unsigned(s: Seq<char>) -> Option<int> {
    let body = if s.len() > 0 && s[0] == '+' {
        s.drop_first()
    } else {
        s
    };
    if body.len() > 0 && all_digits(body) {
        Some(digits_value(body))
    } else {
        None
    }
}

/// An integer literal with an optional sign, as `str::parse` reads one.
pub open spec fn parse_signed(s: Seq<char>) -> Option<int> {
    if s.len() > 0 && s[0] == '-' {
        let body = s.drop_first();
        if body.len() > 0 && all_digits(body) {
            Some(-digits_value(body))
        } else {
            None
        }
    } else {
        parse_unsigned(s)
    }
}

/// What `s.parse::<i64>()` gives: the value of a signed literal within range.
pub open spec fn parse_i64_spec(s: Seq<char>) -> Option<i64> {
    match parse_signed(s) {
        Some(v) => if i64::MIN <= v <= i64::MAX {
            Some(v as i64)
        } else {
            None
        },
        None => None,
    }
}

/// What `s.parse::<usize>()` gives: the value of an unsigned literal within range.
pub open spec fn parse_usize_spec(s: Seq<char>) -> Option<usize> {
    match parse_unsigned(s) {
        Some(v) => if v <= usize::MAX {
            Some(v as usize)
        } else {
            None
        },
        None => None,
    }
}

proof fn lemma_digits_value_nonneg(s: Seq<char>)
    requires
        all_digits(s),
    ensures
        digits_value(s) >= 0,
    decreases s.len(),
{
    if s.len() > 0 {
        assert(all_digits(s.drop_last())) by {
            assert forall|k: int| 0 <= k < s.drop_last().len() implies is_digit(
                #[trigger] s.drop_last()[k],
            ) by {
                assert(s.drop_last()[k] == s[k]);
            }
        }
        lemma_digits_value_nonneg(s.drop_last());
        assert(is_digit(s[s.len() - 1]));
    }
}

proof fn lemma_digits_value_prefix(s: Seq<char>, k: int)
    requires
        all_digits(s),
        0 <= k <= s.len(),
    ensures
        digits_value(s.take(k)) <= digits_value(s),
    decreases s.len(),
{
    if k < s.len() {
        let t = s.drop_last();
        assert(all_digits(t)) by {
            assert forall|j: int| 0 <= j < t.len() implies is_digit(#[trigger] t[j]) by {
                assert(t[j] == s[j]);
            }
        }
        lemma_digits_value_prefix(t, k);
        assert(t.take(k) =~= s.take(k));
        lemma_digits_value_nonneg(t);
        assert(is_digit(s[s.len() - 1]));
    } else {
        assert(s.take(k) =~= s);
    }
}

/// The value of the digits `s[start..]` when they are all digits, there is at
/// least one, and the value is at most `limit`; `None` otherwise.
fn digits_upto(s: &Vec<char>, start: usize, limit: u64) -> (r: Option<u64>)
    requires
        start <= s@.len(),
    ensures
        r == (if s@.len() > start && all_digits(s@.skip(start as int)) && digits_value(
            s@.skip(start as int),
        ) <= limit {
            Some(digits_value(s@.skip(start as int)) as u64)
        } else {
            None::<u64>
        }),
{
    let n = s.len();
    if start == n {
        return None;
    }
    let ghost body = s@.skip(start as int);
    let mut acc: u64 = 0;
    let mut i: usize = start;
    while i < n
        invariant
            n == s@.len(),
            start < n,
            body == s@.skip(start as int),
            start <= i <= n,
            all_digits(s@.subrange(start as int, i as int)),
            acc as int == digits_value(s@.subrange(start as int, i as int)),
            acc <= limit,
        decreases n - i,
    {
        let c = s[i];
        if !('0' <= c && c <= '9') {
            assert(body[i - start] == c);
            return None;
        }
        let d: u64 = (c as u32 - '0' as u32) as u64;
        let next: u128 = (acc as u128) * 10 + (d as u128);
        let ghost sub = s@.subrange(start as int, i + 1);
        proof {
            assert(sub.drop_last() =~= s@.subrange(start as int, i as int));
            assert(sub.last() == c);
            assert(all_digits(sub)) by {
                assert forall|k: int| 0 <= k < sub.len() implies is_digit(#[trigger] sub[k]) by {
                    if k < sub.len() - 1 {
                        assert(sub[k] == s@.subrange(start as int, i as int)[k]);
                    }
                }
            }
        }
        if next > limit as u128 {
            proof {
                if all_digits(body) {
                    lemma_digits_value_prefix(body, i + 1 - start);
                    assert(body.take(i + 1 - start) =~= sub);
                }
            }
            return None;
        }
        acc = next as u64;
        i = i + 1;
    }
    assert(s@.subrange(start as int, n as int) =~= body);
    Some(acc)
}

/// `s.parse::<i64>()`.
pub fn parse_i64(s: &Vec<char>) -> (r: Option<i64>)
    ensures
        r == parse_i64_spec(s@),
{
    if s.len() > 0 && s[0] == '-' {
        assert(s@.skip(1) =~= s@.drop_first());
        match digits_upto(s, 1, 9223372036854775808u64) {
            Some(m) => {
                proof {
                    lemma_digits_value_nonneg(s@.drop_first());
                }
                if m == 9223372036854775808u64 {
                    Some(i64::MIN)
                } else {
                    Some(0i64 - (m as i64))
                }
            },
            None => {
                proof {
                    if s@.drop_first().len() > 0 && all_digits(s@.drop_first()) {
                        lemma_digits_value_nonneg(s@.drop_first());
                    }
                }
                None
            },
        }
    } else {
        let start: usize = if s.len() > 0 && s[0] == '+' {
            1
        } else {
            0
        };
        assert(s@.skip(1) =~= s@.drop_first());
        assert(s@.skip(0) =~= s@);
        let r = digits_upto(s, start, 9223372036854775807u64);
        proof {
            if s@.skip(start as int).len() > 0 && all_digits(s@.skip(start as int)) {
                lemma_digits_value_nonneg(s@.skip(start as int));
            }
        }
        match r {
            Some(m) => Some(m as i64),
            None => None,
        }
    }
}

/// `s.parse::<usize>()`.
pub fn parse_usize(s: &Vec<char>) -> (r: Option<usize>)
    ensures
        r == parse_usize_spec(s@),
{
    let start: usize = if s.len() > 0 && s[0] == '+' {
        1
    } else {
        0
    };
    assert(s@.skip(1) =~= s@.drop_first());
    assert(s@.skip(0) =~= s@);
    let r = digits_upto(s, start, usize::MAX as u64);
    proof {
        if s@.skip(start as int).len() > 0 && all_digits(s@.skip(start as int)) {
            lemma_digits_value_nonneg(s@.skip(start as int));
        }
    }
    match r {
        Some(m) => Some(m as usize),
        None => None,
    }
}

/// The ASCII digit for `d < 10`.
pub open spec fn digit_char(d: int) -> char {
    if d == 0 {
        '0'
    } else if d == 1 {
        '1'
    } else if d == 2 {
        '2'
    } else if d == 3 {
        '3'
    } else if d == 4 {
        '4'
    } else if d == 5 {
        '5'
    } else if d == 6 {
        '6'
    } else if d == 7 {
        '7'
    } else if d == 8 {
        '8'
    } else {
        '9'
    }
}

/// Decimal digits of `n` without leading zeros.
pub open spec fn decimal_nat(n: nat) -> Seq<char>
    decreases n,
{
    if n < 10 {
        seq![digit_char(n as int)]
    } else {
        decimal_nat(n / 10).push(digit_char((n % 10) as int))
    }
}

/// Decimal form of `i`, as `format!("{}", i)` writes it.
pub open spec fn decimal(i: int) -> Seq<char> {
    if i < 0 {
        seq!['-'] + decimal_nat((-i) as nat)
    } else {
        decimal_nat(i as nat)
    }
}

fn digit_to_char(d: u64) -> (r: char)
    requires
        d < 10,
    ensures
        r == digit_char(d as int),
{
    if d == 0 {
        '0'
    } else if d == 1 {
        '1'
    } else if d == 2 {
        '2'
    } else if d == 3 {
        '3'
    } else if d == 4 {
        '4'
    } else if d == 5 {
        '5'
    } else if d == 6 {
        '6'
    } else if d == 7 {
        '7'
    } else if d == 8 {
        '8'
    } else {
        '9'
    }
}

/// Appends the decimal digits of `n`.
pub fn push_decimal_u64(out: &mut Vec<char>, n: u64)
    ensures
        final(out)@ == old(out)@ + decimal_nat(n as nat),
    decreases n,
{
    if n >= 10 {
        push_decimal_u64(out, n / 10);
    }
    out.push(digit_to_char(n % 10));
    proof {
        if n >= 10 {
            assert(decimal_nat(n as nat) == decimal_nat((n / 10) as nat).push(digit_char((n % 10) as int)));
        }
    }
    assert(final(out)@ =~= old(out)@ + decimal_nat(n as nat));
}

/// Appends the decimal form of `n`.
pub fn push_decimal_i64(out: &mut Vec<char>, n: i64)
    ensures
        final(out)@ == old(out)@ + decimal(n as int),
{
    if n < 0 {
        out.push('-');
        let m: u64 = (0i128 - (n as i128)) as u64;
        push_decimal_u64(out, m);
        assert(final(out)@ =~= old(out)@ + decimal(n as int));
    } else {
        push_decimal_u64(out, n as u64);
    }
}


/// The longest prefix of `s` that does not contain `sep`.
pub open spec fn piece_prefix(s: Seq<char>, sep: char) -> Seq<char>
    decreases s.len(),
{
    if s.len() == 0 || s[0] == sep {
        Seq::empty()
    } else {
        seq![s[0]] + piece_prefix(s.drop_first(), sep)
    }
}

/// The pieces of `s` between occurrences of `sep` (`str::split` on a char):
/// one more piece than there are separators, empty pieces included.
pub open spec fn split_on(s: Seq<char>, sep: char) -> Seq<Seq<char>>
    decreases s.len(),
{
    let p = piece_prefix(s, sep);
    proof {
        lemma_piece_prefix(s, sep);
    }
    if p.len() >= s.len() {
        seq![s]
    } else {
        seq![p] + split_on(s.skip(p.len() as int + 1), sep)
    }
}

pub proof fn lemma_piece_prefix(s: Seq<char>, sep: char)
    ensures
        piece_prefix(s, sep).len() <= s.len(),
        forall|k: int|
            0 <= k < piece_prefix(s, sep).len() ==> piece_prefix(s, sep)[k] == s[k] && s[k]
                != sep,
        piece_prefix(s, sep).len() < s.len() ==> s[piece_prefix(s, sep).len() as int] == sep,
    decreases s.len(),
{
    if s.len() > 0 && s[0] != sep {
        let t = s.drop_first();
        lemma_piece_prefix(t, sep);
        assert forall|k: int| 0 <= k < piece_prefix(s, sep).len() implies piece_prefix(s, sep)[k]
            == s[k] && s[k] != sep by {
            if k > 0 {
                assert(piece_prefix(s, sep)[k] == piece_prefix(t, sep)[k - 1]);
                assert(t[k - 1] == s[k]);
            }
        }
    }
}

pub proof fn lemma_piece_prefix_is(s: Seq<char>, sep: char, j: int)
    requires
        0 <= j <= s.len(),
        forall|k: int| 0 <= k < j ==> s[k] != sep,
        j == s.len() || s[j] == sep,
    ensures
        piece_prefix(s, sep) == s.take(j),
    decreases s.len(),
{
    if j == 0 {
        assert(s.take(0) =~= Seq::<char>::empty());
    } else {
        lemma_piece_prefix_is(s.drop_first(), sep, j - 1);
        assert(s.take(j) =~= seq![s[0]] + s.drop_first().take(j - 1));
    }
}

/// `split_on` always gives at least one piece.
pub proof fn lemma_split_on_nonempty(s: Seq<char>, sep: char)
    ensures
        split_on(s, sep).len() >= 1,
        split_on(s, sep)[0] == piece_prefix(s, sep),
{
    lemma_piece_prefix(s, sep);
    if piece_prefix(s, sep).len() >= s.len() {
        assert(piece_prefix(s, sep) =~= s);
    }
}

/// Splits `s` at every `sep`.
pub fn split_char(s: &Vec<char>, sep: char) -> (r: Vec<Vec<char>>)
    ensures
        r@.len() == split_on(s@, sep).len(),
        forall|i: int| 0 <= i < r@.len() ==> #[trigger] r@[i]@ == split_on(s@, sep)[i],
{
    let mut out: Vec<Vec<char>> = Vec::new();
    let ghost mut acc: Seq<Seq<char>> = Seq::empty();
    let n = s.len();
    let mut i: usize = 0;
    assert(s@.skip(0) =~= s@);
    loop
        invariant
            n == s@.len(),
            i <= n,
            out@.len() == acc.len(),
            forall|k: int| 0 <= k < out@.len() ==> #[trigger] out@[k]@ == acc[k],
            acc + split_on(s@.skip(i as int), sep) == split_on(s@, sep),
        decreases n - i,
    {
        let start = i;
        let mut w: Vec<char> = Vec::new();
        while i < n && s[i] != sep
            invariant
                n == s@.len(),
                start <= i <= n,
                w@ == s@.subrange(start as int, i as int),
                forall|k: int| start <= k < i ==> s@[k] != sep,
            decreases n - i,
        {
            w.push(s[i]);
            i = i + 1;
            assert(w@ =~= s@.subrange(start as int, i as int));
        }
        let ghost t = s@.skip(start as int);
        proof {
            lemma_piece_prefix_is(t, sep, i - start);
            assert(t.take(i - start) =~= w@);
        }
        if i == n {
            proof {
                assert(t =~= w@);
                assert(split_on(t, sep) == seq![w@]);
                acc = acc.push(w@);
                assert(acc =~= split_on(s@, sep));
            }
            out.push(w);
            return out;
        }
        proof {
            assert(t.skip((i - start) + 1) =~= s@.skip(i + 1));
            assert(split_on(t, sep) == seq![w@] + split_on(s@.skip(i + 1), sep));
            assert(acc + split_on(t, sep) =~= acc.push(w@) + split_on(s@.skip(i + 1), sep));
            acc = acc.push(w@);
        }
        out.push(w);
        i = i + 1;
    }
}

/// Whether `a` and `b` hold the same characters.
pub fn chars_eq(a: &Vec<char>, b: &Vec<char>) -> (r: bool)
    ensures
        r == (a@ == b@),
{
    if a.len() != b.len() {
        return false;
    }
    let mut i: usize = 0;
    while i < a.len()
        invariant
            a@.len() == b@.len(),
            i <= a@.len(),
            forall|k: int| 0 <= k < i ==> a@[k] == b@[k],
        decreases a.len() - i,
    {
        if a[i] != b[i] {
            return false;
        }
        i = i + 1;
    }
    assert(a@ =~= b@);
    true
}

/// Whether `a` holds the characters of `b`.
pub fn chars_eq_str(a: &Vec<char>, b: &str) -> (r: bool)
    ensures
        r == (a@ == b@),
{
    let bc = chars_of(b);
    chars_eq(a, &bc)
}


/// `p` occurs in `s` starting at `i`.
pub open spec fn occurs_at(s: Seq<char>, p: Seq<char>, i: int) -> bool {
    0 <= i && i + p.len() <= s.len() && s.subrange(i, i + p.len()) == p
}

/// `p` occurs somewhere in `s` (`str::contains`).
pub open spec fn contains_seq(s: Seq<char>, p: Seq<char>) -> bool {
    exists|i: int| occurs_at(s, p, i)
}

/// Whether `p` occurs in `s`.
pub fn contains_chars(s: &Vec<char>, p: &Vec<char>) -> (r: bool)
    ensures
        r == contains_seq(s@, p@),
{
    if p.len() > s.len() {
        assert(!contains_seq(s@, p@));
        return false;
    }
    let mut i: usize = 0;
    let last = s.len() - p.len();
    while i <= last
        invariant
            p@.len() <= s@.len(),
            last == s.len() - p.len(),
            i <= last + 1,
            forall|j: int| 0 <= j < i ==> !occurs_at(s@, p@, j),
        decreases s.len() - i,
    {
        let mut k: usize = 0;
        let mut same = true;
        while k < p.len()
            invariant
                i <= last,
                last == s.len() - p.len(),
                k <= p@.len(),
                same == (forall|m: int| 0 <= m < k ==> s@[i + m] == p@[m]),
            decreases p.len() - k,
        {
            if s[i + k] != p[k] {
                same = false;
            }
            k = k + 1;
        }
        if same {
            assert(s@.subrange(i as int, i + p@.len()) =~= p@);
            assert(occurs_at(s@, p@, i as int));
            return true;
        }
        proof {
            if occurs_at(s@, p@, i as int) {
                assert forall|m: int| 0 <= m < p@.len() implies s@[i + m] == p@[m] by {
                    assert(s@.subrange(i as int, i + p@.len())[m] == s@[i + m]);
                }
            }
        }
        if i == last {
            assert forall|j: int| !occurs_at(s@, p@, j) by {
                if 0 <= j && j < i {
                }
            }
            return false;
        }
        i = i + 1;
    }
    assert forall|j: int| !occurs_at(s@, p@, j) by {
        if 0 <= j && j < i {
        }
    }
    false
}

/// Whether the characters of `p` occur in `s`.
pub fn contains_str(s: &Vec<char>, p: &str) -> (r: bool)
    ensures
        r == contains_seq(s@, p@),
{
    let pc = chars_of(p);
    contains_chars(s, &pc)
}


/// At most `n` pieces of `s` split at `sep`, the last holding the rest
/// (`str::splitn`).
pub open spec fn splitn_on(s: Seq<char>, sep: char, n: nat) -> Seq<Seq<char>>
    decreases n,
{
    let p = piece_prefix(s, sep);
    if n <= 1 || p.len() >= s.len() {
        seq![s]
    } else {
        seq![p] + splitn_on(s.skip(p.len() as int + 1), sep, (n - 1) as nat)
    }
}

/// Splits `s` at `sep` into at most `n` pieces.
pub fn splitn_char(s: &Vec<char>, sep: char, n: usize) -> (r: Vec<Vec<char>>)
    requires
        n >= 1,
    ensures
        r@.len() == splitn_on(s@, sep, n as nat).len(),
        forall|i: int| 0 <= i < r@.len() ==> #[trigger] r@[i]@ == splitn_on(s@, sep, n as nat)[i],
    decreases n,
{
    let mut j: usize = 0;
    while j < s.len() && s[j] != sep
        invariant
            j <= s@.len(),
            forall|k: int| 0 <= k < j ==> s@[k] != sep,
        decreases s.len() - j,
    {
        j = j + 1;
    }
    proof {
        lemma_piece_prefix_is(s@, sep, j as int);
    }
    if n <= 1 || j >= s.len() {
        let whole = slice_chars(s, 0, s.len());
        assert(whole@ =~= s@);
        let mut r: Vec<Vec<char>> = Vec::new();
        r.push(whole);
        return r;
    }
    let head = slice_chars(s, 0, j);
    let rest = slice_chars(s, j + 1, s.len());
    assert(head@ =~= s@.take(j as int));
    assert(rest@ =~= s@.skip(j + 1));
    let tail = splitn_char(&rest, sep, n - 1);
    let mut r: Vec<Vec<char>> = Vec::new();
    r.push(head);
    let mut i: usize = 0;
    let ghost expect = splitn_on(s@, sep, n as nat);
    assert(expect == seq![head@] + splitn_on(rest@, sep, (n - 1) as nat));
    while i < tail.len()
        invariant
            i <= tail@.len(),
            r@.len() == i + 1,
            tail@.len() == splitn_on(rest@, sep, (n - 1) as nat).len(),
            forall|k: int| 0 <= k < tail@.len() ==> #[trigger] tail@[k]@ == splitn_on(rest@, sep, (n - 1) as nat)[k],
            expect == seq![head@] + splitn_on(rest@, sep, (n - 1) as nat),
            forall|k: int| 0 <= k < r@.len() ==> #[trigger] r@[k]@ == expect[k],
        decreases tail.len() - i,
    {
        let piece = slice_chars(&tail[i], 0, tail[i].len());
        assert(piece@ =~= tail@[i as int]@);
        r.push(piece);
        i = i + 1;
    }
    r
}

/// What `str::to_lowercase` gives for `s`: the Unicode lowercase mapping,
/// a function of the text alone.
pub uninterp spec fn lowercase(s: Seq<char>) -> Seq<char>;

/// `str::to_lowercase`: the result is named by [`lowercase`] of the argument.
#[verifier::external_body]
pub(crate) fn to_lower(s: &str) -> (r: String)
    ensures
        r@ == lowercase(s@),
{
    s.to_lowercase()
}

/// Whether `a` and `b` are the same text.
pub fn same_text(a: &str, b: &str) -> (r: bool)
    ensures
        r == (a@ == b@),
{
    let ac = chars_of(a);
    chars_eq_str(&ac, b)
}

/// `s` with every leading `c` taken off (`str::trim_start_matches` with a char).
pub open spec fn trim_start_char(s: Seq<char>, c: char) -> Seq<char>
    decreases s.len(),
{
    if s.len() > 0 && s[0] == c {
        trim_start_char(s.drop_first(), c)
    } else {
        s
    }
}

/// Takes every leading `c` off `v`.
pub fn strip_leading(v: &Vec<char>, c: char) -> (r: Vec<char>)
    ensures
        r@ == trim_start_char(v@, c),
{
    let mut i: usize = 0;
    assert(v@.skip(0) =~= v@);
    while i < v.len() && v[i] == c
        invariant
            i <= v@.len(),
            trim_start_char(v@.skip(i as int), c) == trim_start_char(v@, c),
        decreases v.len() - i,
    {
        assert(v@.skip(i as int).drop_first() =~= v@.skip(i + 1));
        i = i + 1;
    }
    let r = slice_chars(v, i, v.len());
    assert(r@ =~= v@.skip(i as int));
    r
}

/// The pieces `parts` joined with `sep` between them (`[T]::join`).
pub open spec fn join_with(parts: Seq<Seq<char>>, sep: Seq<char>) -> Seq<char>
    decreases parts.len(),
{
    if parts.len() == 0 {
        Seq::empty()
    } else if parts.len() == 1 {
        parts[0]
    } else {
        join_with(parts.drop_last(), sep) + sep + parts.last()
    }
}

/// Joins `parts[from..]` with `sep` between them.
pub fn join_from(parts: &Vec<Vec<char>>, from: usize, sep: &str) -> (r: Vec<char>)
    requires
        from <= parts@.len(),
    ensures
        r@ == join_with(parts@.skip(from as int).map_values(|p: Vec<char>| p@), sep@),
{
    let ghost all = parts@.skip(from as int).map_values(|p: Vec<char>| p@);
    let mut out: Vec<char> = Vec::new();
    let mut i = from;
    assert(all.take(0) =~= Seq::<Seq<char>>::empty());
    while i < parts.len()
        invariant
            from <= i <= parts@.len(),
            all == parts@.skip(from as int).map_values(|p: Vec<char>| p@),
            out@ == join_with(all.take(i - from), sep@),
        decreases parts.len() - i,
    {
        let ghost k = i - from;
        assert(all.take(k + 1).drop_last() =~= all.take(k));
        assert(all[k] == parts@[i as int]@);
        if i > from {
            append_str(&mut out, sep);
        } else {
            assert(out@ =~= Seq::<char>::empty());
        }
        append_chars(&mut out, &parts[i]);
        i = i + 1;
        proof {
            if k == 0 {
                assert(out@ =~= all.take(1)[0]);
            }
        }
    }
    assert(all.take(i - from) =~= all);
    out
}

/// UTF-8 length of `s` in bytes (what `str::len` counts).
pub open spec fn byte_len(s: Seq<char>) -> nat {
    encode_utf8(s).len()
}

/// Byte lengths add up over concatenation.
pub proof fn lemma_byte_len_concat(a: Seq<char>, b: Seq<char>)
    ensures
        byte_len(a + b) == byte_len(a) + byte_len(b),
    decreases a.len(),
{
    if a.len() == 0 {
        assert(a + b =~= b);
    } else {
        assert((a + b).drop_first() =~= a.drop_first() + b);
        assert((a + b)[0] == a[0]);
        lemma_byte_len_concat(a.drop_first(), b);
    }
}

/// UTF-8 length of one character.
pub fn char_byte_len(c: char) -> (r: usize)
    ensures
        r == encode_scalar(c as u32).len(),
        1 <= r <= 4,
{
    let v = c as u32;
    if v <= 0x7F {
        1
    } else if v <= 0x7FF {
        2
    } else if v <= 0xFFFF {
        3
    } else {
        4
    }
}

/// UTF-8 length of `v` in bytes, capped at `usize::MAX`.
pub fn chars_byte_len(v: &Vec<char>) -> (r: usize)
    ensures
        r == (if byte_len(v@) <= usize::MAX { byte_len(v@) } else { usize::MAX as nat }),
{
    let mut n: usize = 0;
    let mut i: usize = 0;
    assert(v@.take(0) =~= Seq::<char>::empty());
    while i < v.len()
        invariant
            i <= v@.len(),
            n == (if byte_len(v@.take(i as int)) <= usize::MAX {
                byte_len(v@.take(i as int))
            } else {
                usize::MAX as nat
            }),
        decreases v.len() - i,
    {
        let b = char_byte_len(v[i]);
        proof {
            assert(v@.take(i + 1) =~= v@.take(i as int) + seq![v@[i as int]]);
            lemma_byte_len_concat(v@.take(i as int), seq![v@[i as int]]);
            let one = seq![v@[i as int]];
            assert(one.drop_first() =~= Seq::<char>::empty());
            assert(encode_utf8(one.drop_first()).len() == 0);
            assert(encode_utf8(one) == encode_scalar(one[0] as u32) + encode_utf8(one.drop_first()));
        }
        if n > usize::MAX - b {
            n = usize::MAX;
        } else {
            n = n + b;
        }
        i = i + 1;
    }
    assert(v@.take(i as int) =~= v@);
    n
}

/// `s` ends with `p`.
pub open spec fn has_suffix(s: Seq<char>, p: Seq<char>) -> bool {
    p.len() <= s.len() && s.skip(s.len() - p.len()) == p
}

/// `s` with `p` taken off its start as often as it is there
/// (`str::trim_start_matches` with a text pattern).
pub open spec fn strip_prefixes(s: Seq<char>, p: Seq<char>) -> Seq<char>
    decreases s.len(),
{
    if p.len() > 0 && has_prefix(s, p) {
        strip_prefixes(s.skip(p.len() as int), p)
    } else {
        s
    }
}

/// `s` with `p` taken off its end as often as it is there
/// (`str::trim_end_matches` with a text pattern).
pub open spec fn strip_suffixes(s: Seq<char>, p: Seq<char>) -> Seq<char>
    decreases s.len(),
{
    if p.len() > 0 && has_suffix(s, p) {
        strip_suffixes(s.take(s.len() - p.len()), p)
    } else {
        s
    }
}

/// Whether `p` occurs in `s` at `at`.
fn occurs_at_index(s: &Vec<char>, p: &Vec<char>, at: usize) -> (r: bool)
    requires
        at <= s@.len(),
    ensures
        r == (at + p@.len() <= s@.len() && s@.subrange(at as int, at + p@.len()) == p@),
{
    if p.len() > s.len() - at {
        return false;
    }
    let mut i: usize = 0;
    while i < p.len()
        invariant
            at + p@.len() <= s@.len(),
            s@.len() == s.len(),
            i <= p@.len(),
            forall|k: int| 0 <= k < i ==> s@[at + k] == p@[k],
        decreases p.len() - i,
    {
        if s[at + i] != p[i] {
            assert(s@.subrange(at as int, at + p@.len())[i as int] != p@[i as int]);
            return false;
        }
        i = i + 1;
    }
    assert(s@.subrange(at as int, at + p@.len()) =~= p@);
    true
}

/// Takes `p` off the start of `v` as often as it is there.
pub fn strip_prefixes_of(v: &Vec<char>, p: &str) -> (r: Vec<char>)
    ensures
        r@ == strip_prefixes(v@, p@),
{
    let pc = chars_of(p);
    if pc.len() == 0 {
        return slice_chars(v, 0, v.len());
    }
    let mut i: usize = 0;
    assert(v@.skip(0) =~= v@);
    while pc.len() <= v.len() - i && occurs_at_index(v, &pc, i)
        invariant
            i <= v@.len(),
            pc@ == p@,
            pc@.len() > 0,
            strip_prefixes(v@.skip(i as int), p@) == strip_prefixes(v@, p@),
        decreases v.len() - i,
    {
        assert(v@.skip(i as int).take(pc@.len() as int) =~= v@.subrange(i as int, i + pc@.len()));
        assert(v@.skip(i as int).skip(pc@.len() as int) =~= v@.skip(i + pc@.len()));
        i = i + pc.len();
    }
    proof {
        if i + pc@.len() <= v@.len() {
            assert(v@.skip(i as int).take(pc@.len() as int) =~= v@.subrange(i as int, i + pc@.len()));
        }
    }
    let r = slice_chars(v, i, v.len());
    assert(r@ =~= v@.skip(i as int));
    r
}

/// Takes `p` off the end of `v` as often as it is there.
pub fn strip_suffixes_of(v: &Vec<char>, p: &str) -> (r: Vec<char>)
    ensures
        r@ == strip_suffixes(v@, p@),
{
    let pc = chars_of(p);
    if pc.len() == 0 {
        return slice_chars(v, 0, v.len());
    }
    let mut e: usize = v.len();
    assert(v@.take(e as int) =~= v@);
    while e >= pc.len() && occurs_at_index(v, &pc, e - pc.len())
        invariant
            e <= v@.len(),
            pc@ == p@,
            pc@.len() > 0,
            strip_suffixes(v@.take(e as int), p@) == strip_suffixes(v@, p@),
        decreases e,
    {
        let ghost t = v@.take(e as int);
        assert(t.skip(t.len() - pc@.len()) =~= v@.subrange(e - pc@.len(), e as int));
        assert(t.take(t.len() - pc@.len()) =~= v@.take(e - pc@.len()));
        e = e - pc.len();
    }
    proof {
        let t = v@.take(e as int);
        if e >= pc@.len() {
            assert(t.skip(t.len() - pc@.len()) =~= v@.subrange(e - pc@.len(), e as int));
        }
    }
    let r = slice_chars(v, 0, e);
    assert(r@ =~= v@.take(e as int));
    r
}

/// What `s.parse::<u64>()` gives: the value of an unsigned literal within range.
pub open spec fn parse_u64_spec(s: Seq<char>) -> Option<u64> {
    match parse_unsigned(s) {
        Some(v) => if v <= u64::MAX {
            Some(v as u64)
        } else {
            None
        },
        None => None,
    }
}

/// `s.parse::<u64>()`.
pub fn parse_u64(s: &Vec<char>) -> (r: Option<u64>)
    ensures
        r == parse_u64_spec(s@),
{
    let start: usize = if s.len() > 0 && s[0] == '+' {
        1
    } else {
        0
    };
    assert(s@.skip(1) =~= s@.drop_first());
    assert(s@.skip(0) =~= s@);
    let r = digits_upto(s, start, u64::MAX);
    proof {
        if s@.skip(start as int).len() > 0 && all_digits(s@.skip(start as int)) {
            lemma_digits_value_nonneg(s@.skip(start as int));
        }
    }
    r
}

} // verus!
