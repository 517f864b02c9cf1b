//! Exact integer statistics over price sequences.
use vstd::prelude::*;

verus! {

/// Number of price micro-units in one unit of the quote currency.
pub const PRICE_SCALE: i64 = 1_000_000;

/// Largest price a validated quote may carry (one million units).
pub const MAX_PRICE: i64 = 1_000_000_000_000;

/// Largest number of prices that one statistic is taken over; it keeps every
/// intermediate value of the exact computations inside 128 bits.
pub const MAX_SAMPLES: usize = 10_000;

/// Largest deviation `|k * p - c|` that the inputs of `sum_sq_deviations` allow.
pub const MAX_DEVIATION: u128 = 10_000_000_000_000_000;

/// Square of `MAX_DEVIATION`.
pub const MAX_SQ_DEVIATION: u128 = 100_000_000_000_000_000_000_000_000_000_000;

/// Sum of the first `j` prices of `s`.
pub open spec fn sum_upto(s: Seq<i64>, j: int) -> int
    decreases j,
{
    if j <= 0 {
        0
    } else {
        sum_upto(s, j - 1) + s[j - 1] as int
    }
}

/// Sum of all prices of `s`.
pub open spec fn sum_of(s: Seq<i64>) -> int {
    sum_upto(s, s.len() as int)
}

/// Scaled deviation of one price: `k * p - c`.
pub open spec fn deviation(p: i64, k: int, c: int) -> int {
    k * p - c
}

/// Sum over the first `j` prices of the squared scaled deviations.
pub open spec fn sq_dev_upto(s: Seq<i64>, k: int, c: int, j: int) -> int
    decreases j,
{
    if j <= 0 {
        0
    } else {
        sq_dev_upto(s, k, c, j - 1) + deviation(s[j - 1], k, c) * deviation(s[j - 1], k, c)
    }
}

/// `n^3` times the population variance of `s`, where `n = s.len()`: the sum
/// of `(n * s[i] - sum_of(s))^2`.
pub open spec fn spread(s: Seq<i64>) -> int {
    sq_dev_upto(s, s.len() as int, sum_of(s), s.len() as int)
}

/// Every price lies in `(0, MAX_PRICE]`.
pub open spec fn prices_in_range(s: Seq<i64>) -> bool {
    forall|i: int| 0 <= i < s.len() ==> 0 < #[trigger] s[i] && s[i] <= MAX_PRICE
}

pub proof fn lemma_sum_upto_bounds(s: Seq<i64>, j: int)
    requires
        prices_in_range(s),
        0 <= j <= s.len(),
    ensures
        0 <= sum_upto(s, j) <= j * MAX_PRICE,
        j > 0 ==> sum_upto(s, j) > 0,
    decreases j,
{
    if j > 0 {
        lemma_sum_upto_bounds(s, j - 1);
        assert(0 < s[j - 1] <= MAX_PRICE);
    }
}

pub proof fn lemma_sq_dev_upto_nonneg(s: Seq<i64>, k: int, c: int, j: int)
    ensures
        sq_dev_upto(s, k, c, j) >= 0,
    decreases j,
{
    if j > 0 {
        lemma_sq_dev_upto_nonneg(s, k, c, j - 1);
        let d = deviation(s[j - 1], k, c);
        assert(d * d >= 0) by (nonlinear_arith);
    }
}

/// Sum of the prices in `s`.
pub fn sum_prices(s: &[i64]) -> (r: i128)
    requires
        prices_in_range(s@),
        s@.len() <= MAX_SAMPLES,
    ensures
        r == sum_of(s@),
        0 <= r <= s@.len() * MAX_PRICE,
{
    let mut acc: i128 = 0;
    let mut i: usize = 0;
    while i < s.len()
        invariant
            i <= s@.len(),
            s@.len() <= MAX_SAMPLES,
            prices_in_range(s@),
            acc == sum_upto(s@, i as int),
            0 <= acc <= i * MAX_PRICE,
        decreases s@.len() - i,
    {
        assert(0 < s@[i as int] <= MAX_PRICE);
        acc = acc + s[i] as i128;
        i = i + 1;
        assert(acc <= i * MAX_PRICE) by (nonlinear_arith)
            requires acc <= (i - 1) * MAX_PRICE + MAX_PRICE;
    }
    acc
}

/// Absolute value and square of the deviation `k * p - c`.
pub fn deviation_sq(p: i64, k: i128, c: i128) -> (r: (u128, u128))
    requires
        0 < p <= MAX_PRICE,
        0 <= k <= MAX_SAMPLES,
        0 <= c <= MAX_SAMPLES * MAX_PRICE,
    ensures
        r.0 == deviation(p, k as int, c as int) || r.0 == -deviation(p, k as int, c as int),
        r.0 <= MAX_DEVIATION,
        r.1 == deviation(p, k as int, c as int) * deviation(p, k as int, c as int),
        r.1 <= MAX_SQ_DEVIATION,
{
    assert(0 <= k * p <= MAX_SAMPLES * MAX_PRICE) by (nonlinear_arith)
        requires 0 <= k <= MAX_SAMPLES, 0 < p <= MAX_PRICE;
    let d: i128 = k * (p as i128) - c;
    let a: u128 = if d < 0 { (-d) as u128 } else { d as u128 };
    assert(a * a == d * d) by (nonlinear_arith)
        requires a == d || a == -d;
    assert(a * a <= MAX_SQ_DEVIATION) by (nonlinear_arith)
        requires 0 <= a <= MAX_DEVIATION;
    (a, a * a)
}

/// `sq_dev_upto(s, k, c, s.len())`, for a scale `k` and a centre `c` in the
/// range that a count and a sum of prices take.
pub fn sum_sq_deviations(s: &[i64], k: i128, c: i128) -> (r: u128)
    requires
        prices_in_range(s@),
        s@.len() <= MAX_SAMPLES,
        0 <= k <= MAX_SAMPLES,
        0 <= c <= MAX_SAMPLES * MAX_PRICE,
    ensures
        r == sq_dev_upto(s@, k as int, c as int, s@.len() as int),
        r <= s@.len() * MAX_SQ_DEVIATION,
{
    let mut acc: u128 = 0;
    let mut i: usize = 0;
    while i < s.len()
        invariant
            i <= s@.len(),
            s@.len() <= MAX_SAMPLES,
            prices_in_range(s@),
            0 <= k <= MAX_SAMPLES,
            0 <= c <= MAX_SAMPLES * MAX_PRICE,
            acc == sq_dev_upto(s@, k as int, c as int, i as int),
            acc <= i * MAX_SQ_DEVIATION,
        decreases s@.len() - i,
    {
        assert(0 < s@[i as int] <= MAX_PRICE);
        let (_, sq) = deviation_sq(s[i], k, c);
        assert(acc + sq <= (i + 1) * MAX_SQ_DEVIATION) by (nonlinear_arith)
            requires acc <= i * MAX_SQ_DEVIATION, sq <= MAX_SQ_DEVIATION;
        assert((i + 1) * MAX_SQ_DEVIATION <= MAX_SAMPLES * MAX_SQ_DEVIATION) by (nonlinear_arith)
            requires i + 1 <= MAX_SAMPLES;
        acc = acc + sq;
        i = i + 1;
    }
    acc
}

/// Smallest of the first `j` prices (`j >= 1`).
pub open spec fn min_upto(s: Seq<i64>, j: int) -> int
    decreases j,
{
    if j <= 1 {
        s[0] as int
    } else if (s[j - 1] as int) < min_upto(s, j - 1) {
        s[j - 1] as int
    } else {
        min_upto(s, j - 1)
    }
}

/// Largest of the first `j` prices (`j >= 1`).
pub open spec fn max_upto(s: Seq<i64>, j: int) -> int
    decreases j,
{
    if j <= 1 {
        s[0] as int
    } else if (s[j - 1] as int) > max_upto(s, j - 1) {
        s[j - 1] as int
    } else {
        max_upto(s, j - 1)
    }
}

/// Smallest price of a non-empty sequence.
pub open spec fn seq_min(s: Seq<i64>) -> int {
    min_upto(s, s.len() as int)
}

/// Largest price of a non-empty sequence.
pub open spec fn seq_max(s: Seq<i64>) -> int {
    max_upto(s, s.len() as int)
}

pub proof fn lemma_min_max_bound(s: Seq<i64>, j: int)
    requires
        1 <= j <= s.len(),
    ensures
        forall|i: int| 0 <= i < j ==> min_upto(s, j) <= #[trigger] s[i] <= max_upto(s, j),
    decreases j,
{
    if j > 1 {
        lemma_min_max_bound(s, j - 1);
    }
}

/// `r` is the integer square root of `x`.
pub open spec fn is_isqrt(x: int, r: int) -> bool {
    0 <= r && r * r <= x && x < (r + 1) * (r + 1)
}

/// Integer square root, rounded down.
pub fn isqrt(x: u128) -> (r: u128)
    ensures
        is_isqrt(x as int, r as int),
        r < 0x1_0000_0000_0000_0000u128,
{
    let mut lo: u128 = 0;
    let mut hi: u128 = 0x1_0000_0000_0000_0000;
    assert(x < hi * hi) by (nonlinear_arith)
        requires x <= u128::MAX, hi == 0x1_0000_0000_0000_0000u128;
    while hi - lo > 1
        invariant
            lo < hi <= 0x1_0000_0000_0000_0000u128,
            lo * lo <= x,
            x < hi * hi,
        decreases hi - lo,
    {
        let mid = lo + (hi - lo) / 2;
        assert(mid * mid < 0x1_0000_0000_0000_0000u128 * 0x1_0000_0000_0000_0000u128) by (nonlinear_arith)
            requires mid < 0x1_0000_0000_0000_0000u128;
        if mid * mid <= x {
            lo = mid;
        } else {
            hi = mid;
        }
    }
    lo
}

} // verus!
