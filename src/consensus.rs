//! Consensus over one validated batch: outlier detection by z-score,
//! confidence-weighted aggregation, and the confidence and agreement metrics.
use vstd::arithmetic::div_mod::{lemma_div_is_ordered, lemma_div_multiples_vanish};
use vstd::prelude::*;

use crate::clock::unix_now;
use crate::models::{ConsensusParams, ConsensusResult, OracleError, PriceData, PPM};
use crate::stats::{
    deviation, deviation_sq, lemma_min_max_bound, lemma_sq_dev_upto_nonneg, prices_in_range,
    seq_max, seq_min, spread, sq_dev_upto, sum_of, sum_prices, sum_sq_deviations, MAX_PRICE,
    MAX_SAMPLES, MAX_SQ_DEVIATION,
};

verus! {

/// Variance, in squared micro-units, at which the variance penalty reaches
/// one whole: 10000 squared units of the quote currency.
pub const VARIANCE_PENALTY_SCALE: u128 = 10_000_000_000;

/// Floor of the variance factor (0.1).
pub const MIN_VARIANCE_FACTOR: u64 = 100_000;

/// Prices of a batch, in order.
pub open spec fn price_seq(q: Seq<PriceData>) -> Seq<i64> {
    q.map_values(|d: PriceData| d.price)
}

/// Sources of a batch, in order.
pub open spec fn source_seq(q: Seq<PriceData>) -> Seq<String> {
    q.map_values(|d: PriceData| d.source)
}

/// A batch the consensus engine accepts as input: validated prices, and no
/// more quotes than the exact arithmetic is sized for.
pub open spec fn valid_batch(q: Seq<PriceData>) -> bool {
    &&& prices_in_range(price_seq(q))
    &&& q.len() <= MAX_SAMPLES
}

/// Price `i` is an outlier when its z-score exceeds 2.5. With mean
/// `S / n` and variance `spread / n^3`, `|p - mean| / std_dev > 5 / 2` is,
/// squared and multiplied out, `4 n (n p - S)^2 > 25 spread`. When all
/// prices are equal both sides are zero and no price is an outlier.
pub open spec fn is_outlier(s: Seq<i64>, i: int) -> bool {
    let d = deviation(s[i], s.len() as int, sum_of(s));
    4 * s.len() * (d * d) > 25 * spread(s)
}

/// Outlier flag of each price.
pub open spec fn outlier_flags(s: Seq<i64>) -> Seq<bool> {
    Seq::new(s.len(), |i: int| is_outlier(s, i))
}

/// Outlier flag of each quote of a batch.
pub open spec fn outlier_mask(q: Seq<PriceData>) -> Seq<bool> {
    outlier_flags(price_seq(q))
}

/// Number of flags set among the first `j`.
pub open spec fn count_upto(m: Seq<bool>, j: int) -> int
    decreases j,
{
    if j <= 0 {
        0
    } else {
        count_upto(m, j - 1) + if m[j - 1] {
            1int
        } else {
            0int
        }
    }
}

/// Number of outliers in a batch.
pub open spec fn outlier_count(q: Seq<PriceData>) -> int {
    count_upto(outlier_mask(q), q.len() as int)
}

/// Population variance of the batch's prices in squared micro-units,
/// rounded down.
pub open spec fn batch_variance(q: Seq<PriceData>) -> int {
    let n = q.len() as int;
    spread(price_seq(q)) / (n * n * n)
}

/// Sum of `price * confidence` over the non-outliers among the first `j`.
pub open spec fn kept_weighted_sum(q: Seq<PriceData>, m: Seq<bool>, j: int) -> int
    decreases j,
{
    if j <= 0 {
        0
    } else {
        kept_weighted_sum(q, m, j - 1) + if m[j - 1] {
            0
        } else {
            q[j - 1].price as int * q[j - 1].confidence as int
        }
    }
}

/// Sum of the confidences of the non-outliers among the first `j`.
pub open spec fn kept_weight(q: Seq<PriceData>, m: Seq<bool>, j: int) -> int
    decreases j,
{
    if j <= 0 {
        0
    } else {
        kept_weight(q, m, j - 1) + if m[j - 1] {
            0
        } else {
            q[j - 1].confidence as int
        }
    }
}

/// Sum of the prices of the non-outliers among the first `j`.
pub open spec fn kept_price_sum(q: Seq<PriceData>, m: Seq<bool>, j: int) -> int
    decreases j,
{
    if j <= 0 {
        0
    } else {
        kept_price_sum(q, m, j - 1) + if m[j - 1] {
            0
        } else {
            q[j - 1].price as int
        }
    }
}

/// Sum of the confidences of the first `j` quotes.
pub open spec fn confidence_upto(q: Seq<PriceData>, j: int) -> int
    decreases j,
{
    if j <= 0 {
        0
    } else {
        confidence_upto(q, j - 1) + q[j - 1].confidence as int
    }
}

/// Confidence-weighted mean of the non-outliers' prices, rounded down; the
/// plain mean of those prices when their confidences sum to zero.
pub open spec fn consensus_price(q: Seq<PriceData>) -> int {
    let m = outlier_mask(q);
    let n = q.len() as int;
    let w = kept_weight(q, m, n);
    if w > 0 {
        kept_weighted_sum(q, m, n) / w
    } else {
        kept_price_sum(q, m, n) / (n - outlier_count(q))
    }
}

/// `min(variance / 10000, 1)` in parts per million, for a variance in
/// squared micro-units.
pub open spec fn variance_penalty(variance: int) -> int {
    if variance / (VARIANCE_PENALTY_SCALE as int) > PPM {
        PPM as int
    } else {
        variance / (VARIANCE_PENALTY_SCALE as int)
    }
}

/// `max(1 - min(variance / 10000, 1), 0.1)` in parts per million.
pub open spec fn variance_factor(variance: int) -> int {
    if PPM - variance_penalty(variance) < MIN_VARIANCE_FACTOR {
        MIN_VARIANCE_FACTOR as int
    } else {
        PPM - variance_penalty(variance)
    }
}

/// Mean source confidence times the variance factor times the share of
/// non-outliers, in parts per million, rounded down and clamped to `PPM`.
pub open spec fn consensus_confidence(q: Seq<PriceData>) -> int {
    let n = q.len() as int;
    let raw = confidence_upto(q, n) * variance_factor(batch_variance(q)) * (n - outlier_count(q))
        / (n * n * PPM);
    if raw > PPM {
        PPM as int
    } else {
        raw
    }
}

/// `1 - outlier share - variance penalty`, in parts per million, with the
/// outlier share rounded down, clamped at zero.
pub open spec fn consensus_score(q: Seq<PriceData>) -> int {
    let n = q.len() as int;
    let s = PPM - (PPM * outlier_count(q)) / n - variance_penalty(batch_variance(q));
    if s < 0 {
        0
    } else {
        s
    }
}

/// The outlier share `k / n` exceeds `max_ppm` parts per million.
pub open spec fn too_many_outliers(k: int, n: int, max_ppm: int) -> bool {
    k * PPM > max_ppm * n
}

/// The error the engine returns for a batch, if any.
pub open spec fn consensus_error(q: Seq<PriceData>, params: ConsensusParams) -> Option<
    OracleError,
> {
    let n = q.len() as int;
    if n == 0 {
        Some(OracleError::EmptyBatch)
    } else if n < params.min_sources {
        Some(OracleError::InsufficientSources { count: n as usize, minimum: params.min_sources })
    } else if too_many_outliers(outlier_count(q), n, params.max_outlier_percentage as int) {
        Some(OracleError::TooManyOutliers { outliers: outlier_count(q) as usize, total: n as usize })
    } else {
        None
    }
}

/// `r` is what the engine owes for batch `q` under `params`, up to the
/// timestamp of a successful result.
pub open spec fn consensus_outcome(
    q: Seq<PriceData>,
    params: ConsensusParams,
    r: Result<ConsensusResult, OracleError>,
) -> bool {
    &&& r.is_err() == consensus_error(q, params).is_some()
    &&& consensus_error(q, params) matches Some(e) ==> r == Err::<ConsensusResult, OracleError>(e)
    &&& r matches Ok(res) ==> {
        &&& res.asset == q[0].asset
        &&& res.price == consensus_price(q)
        &&& res.confidence == consensus_confidence(q)
        &&& res.consensus_score == consensus_score(q)
        &&& res.price_variance == batch_variance(q)
        &&& res.outlier_count == outlier_count(q)
        &&& res.sources@ == source_seq(q)
        &&& res.confidence <= PPM && res.consensus_score <= PPM
    }
}

// ----- lemmas -----

pub proof fn lemma_count_upto_bounds(m: Seq<bool>, j: int)
    requires
        0 <= j,
    ensures
        0 <= count_upto(m, j) <= j,
    decreases j,
{
    if j > 0 {
        lemma_count_upto_bounds(m, j - 1);
    }
}

/// Squared deviations of the outliers among the first `j` prices.
spec fn outlier_sq_dev_upto(s: Seq<i64>, j: int) -> int
    decreases j,
{
    if j <= 0 {
        0
    } else {
        outlier_sq_dev_upto(s, j - 1) + if is_outlier(s, j - 1) {
            deviation(s[j - 1], s.len() as int, sum_of(s)) * deviation(
                s[j - 1],
                s.len() as int,
                sum_of(s),
            )
        } else {
            0
        }
    }
}

proof fn lemma_outlier_mass(q: Seq<PriceData>, j: int)
    requires
        0 <= j <= q.len(),
    ensures
        ({
            let s = price_seq(q);
            let n = q.len() as int;
            let t = outlier_sq_dev_upto(s, j);
            let k = count_upto(outlier_mask(q), j);
            &&& 0 <= t <= sq_dev_upto(s, n, sum_of(s), j)
            &&& 4 * n * t >= 25 * spread(s) * k
            &&& k > 0 ==> 4 * n * t > 25 * spread(s) * k
        }),
    decreases j,
{
    let s = price_seq(q);
    let n = q.len() as int;
    if j > 0 {
        lemma_outlier_mass(q, j - 1);
        lemma_sq_dev_upto_nonneg(s, n, sum_of(s), n);
        let d = deviation(s[j - 1], n, sum_of(s));
        let t0 = outlier_sq_dev_upto(s, j - 1);
        let k0 = count_upto(outlier_mask(q), j - 1);
        let sp = spread(s);
        assert(d * d >= 0) by (nonlinear_arith);
        assert(outlier_mask(q)[j - 1] == is_outlier(s, j - 1));
        if is_outlier(s, j - 1) {
            assert(4 * n * (t0 + d * d) > 25 * sp * (k0 + 1)) by (nonlinear_arith)
                requires
                    4 * n * t0 >= 25 * sp * k0,
                    4 * n * (d * d) > 25 * sp,
            ;
        }
    }
}

/// A non-empty batch always keeps at least one price: not every price can be
/// an outlier.
pub proof fn lemma_not_all_outliers(q: Seq<PriceData>)
    requires
        q.len() > 0,
    ensures
        0 <= outlier_count(q) < q.len(),
{
    let s = price_seq(q);
    let n = q.len() as int;
    lemma_outlier_mass(q, n);
    lemma_count_upto_bounds(outlier_mask(q), n);
    lemma_sq_dev_upto_nonneg(s, n, sum_of(s), n);
    let t = outlier_sq_dev_upto(s, n);
    let sp = spread(s);
    if outlier_count(q) == n {
        assert(false) by (nonlinear_arith)
            requires
                n > 0,
                sp >= 0,
                t <= sp,
                4 * n * t > 25 * sp * n,
        ;
    }
}

proof fn lemma_div_between(a: int, b: int, lo: int, hi: int)
    requires
        b > 0,
        lo * b <= a <= hi * b,
    ensures
        lo <= a / b <= hi,
{
    assert(lo * b == b * lo && hi * b == b * hi) by (nonlinear_arith);
    lemma_div_is_ordered(b * lo, a, b);
    lemma_div_is_ordered(a, b * hi, b);
    lemma_div_multiples_vanish(lo, b);
    lemma_div_multiples_vanish(hi, b);
}

proof fn lemma_kept_bounds(q: Seq<PriceData>, m: Seq<bool>, lo: int, hi: int, j: int)
    requires
        0 <= j <= q.len(),
        j <= m.len(),
        forall|i: int| 0 <= i < q.len() ==> lo <= #[trigger] q[i].price <= hi,
    ensures
        kept_weight(q, m, j) >= 0,
        lo * kept_weight(q, m, j) <= kept_weighted_sum(q, m, j) <= hi * kept_weight(q, m, j),
        lo * (j - count_upto(m, j)) <= kept_price_sum(q, m, j) <= hi * (j - count_upto(m, j)),
    decreases j,
{
    if j > 0 {
        lemma_kept_bounds(q, m, lo, hi, j - 1);
        let p = q[j - 1].price as int;
        let c = q[j - 1].confidence as int;
        let w0 = kept_weight(q, m, j - 1);
        let ws0 = kept_weighted_sum(q, m, j - 1);
        assert(lo <= p <= hi);
        if !m[j - 1] {
            assert(lo * (w0 + c) <= ws0 + p * c <= hi * (w0 + c)) by (nonlinear_arith)
                requires
                    lo * w0 <= ws0 <= hi * w0,
                    lo <= p <= hi,
                    c >= 0,
            ;
        }
        let k0 = count_upto(m, j - 1);
        assert(lo * (j - count_upto(m, j)) <= kept_price_sum(q, m, j) <= hi * (j - count_upto(m, j)))
            by (nonlinear_arith)
            requires
                lo * ((j - 1) - k0) <= kept_price_sum(q, m, j - 1) <= hi * ((j - 1) - k0),
                m[j - 1] ==> count_upto(m, j) == k0 + 1 && kept_price_sum(q, m, j) == kept_price_sum(q, m, j - 1),
                !m[j - 1] ==> count_upto(m, j) == k0 && kept_price_sum(q, m, j) == kept_price_sum(q, m, j - 1) + p,
                lo <= p <= hi,
        ;
    }
}

/// The consensus price of a non-empty batch lies between any lower and upper
/// bound that all of the batch's prices respect, whatever the outliers: in
/// particular between the smallest and the largest price.
pub proof fn lemma_consensus_price_between(q: Seq<PriceData>, lo: int, hi: int)
    requires
        q.len() > 0,
        forall|i: int| 0 <= i < q.len() ==> lo <= #[trigger] q[i].price <= hi,
    ensures
        lo <= consensus_price(q) <= hi,
{
    let m = outlier_mask(q);
    let n = q.len() as int;
    lemma_kept_bounds(q, m, lo, hi, n);
    lemma_not_all_outliers(q);
    if kept_weight(q, m, n) > 0 {
        lemma_div_between(kept_weighted_sum(q, m, n), kept_weight(q, m, n), lo, hi);
    } else {
        lemma_div_between(kept_price_sum(q, m, n), n - outlier_count(q), lo, hi);
    }
}

/// When the confidences of the non-outliers sum to zero, the consensus price
/// is the plain mean of the non-outliers' prices (rounded down), and that
/// mean is well defined: at least one price is kept.
pub proof fn lemma_zero_weight_fallback(q: Seq<PriceData>)
    requires
        q.len() > 0,
        kept_weight(q, outlier_mask(q), q.len() as int) == 0,
    ensures
        q.len() - outlier_count(q) > 0,
        consensus_price(q) == kept_price_sum(q, outlier_mask(q), q.len() as int) / (q.len()
            - outlier_count(q)),
{
    lemma_not_all_outliers(q);
}

proof fn lemma_confidence_upto_nonneg(q: Seq<PriceData>, j: int)
    ensures
        confidence_upto(q, j) >= 0,
    decreases j,
{
    if j > 0 {
        lemma_confidence_upto_nonneg(q, j - 1);
    }
}

/// Confidence and consensus score of any non-empty batch lie in `[0, 1]`
/// (in parts per million), whatever its prices and confidences.
pub proof fn lemma_metrics_in_unit_range(q: Seq<PriceData>)
    requires
        q.len() > 0,
    ensures
        0 <= consensus_confidence(q) <= PPM,
        0 <= consensus_score(q) <= PPM,
{
    let n = q.len() as int;
    lemma_not_all_outliers(q);
    lemma_confidence_upto_nonneg(q, n);
    let c = confidence_upto(q, n);
    let f = variance_factor(batch_variance(q));
    let kept = n - outlier_count(q);
    assert(c * f * kept >= 0) by (nonlinear_arith)
        requires c >= 0, f >= 0, kept >= 0;
    assert(n * n * PPM > 0) by (nonlinear_arith)
        requires n > 0;
    vstd::arithmetic::div_mod::lemma_div_pos_is_pos(c * f * kept, n * n * PPM);
    let s = price_seq(q);
    lemma_sq_dev_upto_nonneg(s, n, sum_of(s), n);
    assert(n * n * n > 0) by (nonlinear_arith)
        requires n > 0;
    vstd::arithmetic::div_mod::lemma_div_pos_is_pos(spread(s), n * n * n);
    vstd::arithmetic::div_mod::lemma_div_pos_is_pos(batch_variance(q), VARIANCE_PENALTY_SCALE as int);
    assert(PPM * outlier_count(q) >= 0) by (nonlinear_arith)
        requires outlier_count(q) >= 0;
    vstd::arithmetic::div_mod::lemma_div_pos_is_pos(PPM * outlier_count(q), n);
}

/// The consensus price of a non-empty batch lies between its smallest and
/// its largest price.
pub proof fn lemma_consensus_within_min_max(q: Seq<PriceData>)
    requires
        q.len() > 0,
    ensures
        seq_min(price_seq(q)) <= consensus_price(q) <= seq_max(price_seq(q)),
{
    let s = price_seq(q);
    lemma_min_max_bound(s, s.len() as int);
    assert forall|i: int| 0 <= i < q.len() implies seq_min(s) <= #[trigger] q[i].price <= seq_max(s) by {
        assert(s[i] == q[i].price);
    }
    lemma_consensus_price_between(q, seq_min(s), seq_max(s));
}

/// Every price of the batch lies in `[1, MAX_PRICE]`, stated per quote.
proof fn lemma_batch_prices(q: Seq<PriceData>)
    requires
        valid_batch(q),
    ensures
        forall|i: int| 0 <= i < q.len() ==> 1 <= #[trigger] q[i].price <= MAX_PRICE,
{
    assert forall|i: int| 0 <= i < q.len() implies 1 <= #[trigger] q[i].price <= MAX_PRICE by {
        assert(price_seq(q)[i] == q[i].price);
    }
}

/// Reduces one validated batch of quotes to a single consensus result.
pub struct ConsensusEngine {
    params: ConsensusParams,
}

impl ConsensusEngine {
    /// The parameters the engine runs with.
    pub closed spec fn spec_params(&self) -> ConsensusParams {
        self.params
    }

    /// An engine with the default parameters.
    pub fn new() -> (r: Self)
        ensures
            r.spec_params().min_sources == 2,
            r.spec_params().max_outlier_percentage == 300_000,
            r.spec_params().confidence_threshold == 700_000,
            r.spec_params().price_variance_threshold == 50_000,
    {
        ConsensusEngine { params: ConsensusParams::default() }
    }

    /// An engine with the given parameters.
    pub fn with_params(params: ConsensusParams) -> (r: Self)
        ensures
            r.spec_params() == params,
    {
        ConsensusEngine { params }
    }

    /// Runs consensus on a batch, stamping the result with the current time.
    pub fn run_consensus(&self, price_data: &[PriceData]) -> (r: Result<ConsensusResult, OracleError>)
        requires
            valid_batch(price_data@),
        ensures
            consensus_outcome(price_data@, self.spec_params(), r),
    {
        let now = unix_now();
        self.run_consensus_at(price_data, now)
    }

    /// Runs consensus on a batch, stamping the result with `now`.
    ///
    /// Fails on an empty batch, on fewer quotes than `min_sources`, and when
    /// the share of outliers exceeds `max_outlier_percentage`, in that order.
    pub fn run_consensus_at(&self, price_data: &[PriceData], now: i64) -> (r: Result<
        ConsensusResult,
        OracleError,
    >)
        requires
            valid_batch(price_data@),
        ensures
            consensus_outcome(price_data@, self.spec_params(), r),
            r matches Ok(res) ==> res.timestamp == now,
    {
        let ghost q = price_data@;
        let n = price_data.len();
        if n == 0 {
            return Err(OracleError::EmptyBatch);
        }
        if n < self.params.min_sources {
            return Err(OracleError::InsufficientSources { count: n, minimum: self.params.min_sources });
        }
        let mut prices: Vec<i64> = Vec::new();
        let mut sources: Vec<String> = Vec::new();
        let mut i: usize = 0;
        while i < n
            invariant
                n == q.len(),
                q == price_data@,
                i <= n,
                prices@ == price_seq(q).subrange(0, i as int),
                sources@ == source_seq(q).subrange(0, i as int),
            decreases n - i,
        {
            prices.push(price_data[i].price);
            sources.push(price_data[i].source.clone());
            i = i + 1;
            assert(prices@ =~= price_seq(q).subrange(0, i as int));
            assert(sources@ =~= source_seq(q).subrange(0, i as int));
        }
        assert(prices@ =~= price_seq(q));
        assert(sources@ =~= source_seq(q));
        let (spread_total, variance) = self.calculate_variance(&prices);
        let (mask, outliers) = self.detect_outliers(&prices, spread_total);
        assert(mask@ =~= outlier_mask(q));
        proof {
            lemma_not_all_outliers(q);
        }
        assert(self.params.max_outlier_percentage * n <= 0xFFFF_FFFF_FFFF_FFFFu64 * MAX_SAMPLES)
            by (nonlinear_arith)
            requires n <= MAX_SAMPLES, self.params.max_outlier_percentage <= 0xFFFF_FFFF_FFFF_FFFFu64;
        let too_many = (outliers as u128) * (PPM as u128) > (self.params.max_outlier_percentage as u128)
            * (n as u128);
        if too_many {
            return Err(OracleError::TooManyOutliers { outliers, total: n });
        }
        let consensus = self.calculate_weighted_average(price_data, &mask, outliers);
        let confidence = self.calculate_confidence(price_data, variance, outliers);
        let score = self.calculate_consensus_score(n, variance, outliers);
        let asset = price_data[0].asset.clone();
        Ok(
            ConsensusResult {
                asset,
                price: consensus,
                confidence,
                timestamp: now,
                sources,
                consensus_score: score,
                price_variance: variance,
                outlier_count: outliers,
            },
        )
    }

    /// `n^3` times the variance, and the variance rounded down.
    fn calculate_variance(&self, prices: &Vec<i64>) -> (r: (u128, u128))
        requires
            prices_in_range(prices@),
            0 < prices@.len() <= MAX_SAMPLES,
        ensures
            r.0 == spread(prices@),
            r.0 <= prices@.len() * MAX_SQ_DEVIATION,
            r.1 == spread(prices@) / ((prices@.len() * prices@.len() * prices@.len()) as int),
    {
        let n = prices.len();
        let total = sum_prices(prices.as_slice());
        let spread_total = sum_sq_deviations(prices.as_slice(), n as i128, total);
        assert(n * n <= MAX_SAMPLES * MAX_SAMPLES && n * n * n <= MAX_SAMPLES * MAX_SAMPLES * MAX_SAMPLES)
            by (nonlinear_arith)
            requires 0 < n <= MAX_SAMPLES;
        let n3 = (n as u128) * (n as u128) * (n as u128);
        assert(n3 > 0) by (nonlinear_arith)
            requires n3 == n * n * n, n > 0;
        (spread_total, spread_total / n3)
    }

    /// Outlier flag of each price, and the number of flags set.
    fn detect_outliers(&self, prices: &Vec<i64>, spread_total: u128) -> (r: (Vec<bool>, usize))
        requires
            prices_in_range(prices@),
            0 < prices@.len() <= MAX_SAMPLES,
            spread_total == spread(prices@),
            spread_total <= prices@.len() * MAX_SQ_DEVIATION,
        ensures
            r.0@ == outlier_flags(prices@),
            r.1 == count_upto(outlier_flags(prices@), prices@.len() as int),
            r.1 <= prices@.len(),
    {
        let n = prices.len();
        let total = sum_prices(prices.as_slice());
        let ghost flags = outlier_flags(prices@);
        let rhs: u128 = 25 * spread_total;
        let mut mask: Vec<bool> = Vec::new();
        let mut count: usize = 0;
        let mut i: usize = 0;
        while i < n
            invariant
                n == prices@.len(),
                0 < n <= MAX_SAMPLES,
                prices_in_range(prices@),
                total == sum_of(prices@),
                0 <= total <= n * MAX_PRICE,
                rhs == 25 * spread(prices@),
                flags == outlier_flags(prices@),
                i <= n,
                mask@ == flags.subrange(0, i as int),
                count == count_upto(flags, i as int),
                count <= i,
            decreases n - i,
        {
            assert(0 < prices@[i as int] <= MAX_PRICE);
            let (_, sq) = deviation_sq(prices[i], n as i128, total);
            assert(4 * n * sq <= 4 * MAX_SAMPLES * MAX_SQ_DEVIATION) by (nonlinear_arith)
                requires n <= MAX_SAMPLES, sq <= MAX_SQ_DEVIATION;
            let lhs: u128 = 4 * (n as u128) * sq;
            let flag = lhs > rhs;
            assert(flag == is_outlier(prices@, i as int));
            mask.push(flag);
            if flag {
                count = count + 1;
            }
            i = i + 1;
            assert(mask@ =~= flags.subrange(0, i as int));
        }
        assert(mask@ =~= flags);
        (mask, count)
    }

    /// Confidence-weighted mean of the non-outliers, or their plain mean
    /// when their confidences sum to zero.
    fn calculate_weighted_average(&self, price_data: &[PriceData], mask: &Vec<bool>, outliers: usize) -> (r: i64)
        requires
            valid_batch(price_data@),
            price_data@.len() > 0,
            mask@ == outlier_mask(price_data@),
            outliers == outlier_count(price_data@),
        ensures
            r == consensus_price(price_data@),
            1 <= r <= MAX_PRICE,
    {
        let ghost q = price_data@;
        let ghost m = outlier_mask(q);
        let n = price_data.len();
        proof {
            lemma_batch_prices(q);
            lemma_not_all_outliers(q);
            lemma_consensus_price_between(q, 1, MAX_PRICE as int);
        }
        let mut weighted: u128 = 0;
        let mut weight: u128 = 0;
        let mut kept: u128 = 0;
        let mut i: usize = 0;
        while i < n
            invariant
                q == price_data@,
                m == outlier_mask(q),
                mask@ == m,
                n == q.len(),
                n <= MAX_SAMPLES,
                forall|t: int| 0 <= t < q.len() ==> 1 <= #[trigger] q[t].price <= MAX_PRICE,
                i <= n,
                weighted == kept_weighted_sum(q, m, i as int),
                weight == kept_weight(q, m, i as int),
                kept == kept_price_sum(q, m, i as int),
                weighted <= i * (MAX_PRICE * 0xFFFF_FFFF_FFFF_FFFFu64),
                weight <= i * 0xFFFF_FFFF_FFFF_FFFFu64,
                kept <= i * MAX_PRICE,
            decreases n - i,
        {
            if !mask[i] {
                let p = price_data[i].price;
                let c = price_data[i].confidence;
                assert(1 <= q[i as int].price <= MAX_PRICE);
                assert(p * c <= MAX_PRICE * 0xFFFF_FFFF_FFFF_FFFFu64) by (nonlinear_arith)
                    requires 1 <= p <= MAX_PRICE, 0 <= c <= 0xFFFF_FFFF_FFFF_FFFFu64;
                assert(weighted + p * c <= (i + 1) * (MAX_PRICE * 0xFFFF_FFFF_FFFF_FFFFu64)) by (nonlinear_arith)
                    requires
                        weighted <= i * (MAX_PRICE * 0xFFFF_FFFF_FFFF_FFFFu64),
                        p * c <= MAX_PRICE * 0xFFFF_FFFF_FFFF_FFFFu64;
                assert((i + 1) * (MAX_PRICE * 0xFFFF_FFFF_FFFF_FFFFu64) <= MAX_SAMPLES * (MAX_PRICE * 0xFFFF_FFFF_FFFF_FFFFu64)) by (nonlinear_arith)
                    requires i + 1 <= MAX_SAMPLES;
                weighted = weighted + (p as u128) * (c as u128);
                weight = weight + c as u128;
                kept = kept + p as u128;
            }
            i = i + 1;
            assert(weighted <= i * (MAX_PRICE * 0xFFFF_FFFF_FFFF_FFFFu64)) by (nonlinear_arith)
                requires weighted <= (i - 1) * (MAX_PRICE * 0xFFFF_FFFF_FFFF_FFFFu64) || weighted <= i * (MAX_PRICE * 0xFFFF_FFFF_FFFF_FFFFu64);
            assert(weight <= i * 0xFFFF_FFFF_FFFF_FFFFu64) by (nonlinear_arith)
                requires weight <= (i - 1) * 0xFFFF_FFFF_FFFF_FFFFu64 + 0xFFFF_FFFF_FFFF_FFFFu64;
            assert(kept <= i * MAX_PRICE) by (nonlinear_arith)
                requires kept <= (i - 1) * MAX_PRICE + MAX_PRICE;
        }
        if weight > 0 {
            (weighted / weight) as i64
        } else {
            (kept / ((n - outliers) as u128)) as i64
        }
    }

    /// Mean source confidence, scaled by the variance factor and the share
    /// of non-outliers, clamped to one.
    fn calculate_confidence(&self, price_data: &[PriceData], variance: u128, outliers: usize) -> (r: u64)
        requires
            valid_batch(price_data@),
            price_data@.len() > 0,
            variance == batch_variance(price_data@),
            outliers == outlier_count(price_data@),
            outliers <= price_data@.len(),
        ensures
            r == consensus_confidence(price_data@),
            r <= PPM,
    {
        let ghost q = price_data@;
        let n = price_data.len();
        let mut total: u128 = 0;
        let mut i: usize = 0;
        while i < n
            invariant
                q == price_data@,
                n == q.len(),
                n <= MAX_SAMPLES,
                i <= n,
                total == confidence_upto(q, i as int),
                total <= i * 0xFFFF_FFFF_FFFF_FFFFu64,
            decreases n - i,
        {
            total = total + price_data[i].confidence as u128;
            i = i + 1;
            assert(total <= i * 0xFFFF_FFFF_FFFF_FFFFu64) by (nonlinear_arith)
                requires total <= (i - 1) * 0xFFFF_FFFF_FFFF_FFFFu64 + 0xFFFF_FFFF_FFFF_FFFFu64;
        }
        let penalty: u128 = if variance / VARIANCE_PENALTY_SCALE > PPM as u128 {
            PPM as u128
        } else {
            variance / VARIANCE_PENALTY_SCALE
        };
        let factor: u128 = if (PPM as u128) - penalty < MIN_VARIANCE_FACTOR as u128 {
            MIN_VARIANCE_FACTOR as u128
        } else {
            (PPM as u128) - penalty
        };
        let kept = (n - outliers) as u128;
        assert(total * factor <= MAX_SAMPLES * 0xFFFF_FFFF_FFFF_FFFFu64 * PPM) by (nonlinear_arith)
            requires total <= MAX_SAMPLES * 0xFFFF_FFFF_FFFF_FFFFu64, factor <= PPM;
        assert(total * factor * kept <= MAX_SAMPLES * 0xFFFF_FFFF_FFFF_FFFFu64 * PPM * MAX_SAMPLES) by (nonlinear_arith)
            requires total * factor <= MAX_SAMPLES * 0xFFFF_FFFF_FFFF_FFFFu64 * PPM, kept <= MAX_SAMPLES;
        assert(n * n <= MAX_SAMPLES * MAX_SAMPLES && n * n * PPM <= MAX_SAMPLES * MAX_SAMPLES * PPM)
            by (nonlinear_arith)
            requires 0 < n <= MAX_SAMPLES;
        let denom = (n as u128) * (n as u128) * (PPM as u128);
        assert(denom > 0) by (nonlinear_arith)
            requires denom == n * n * PPM, n > 0;
        let raw = total * factor * kept / denom;
        if raw > PPM as u128 {
            PPM
        } else {
            raw as u64
        }
    }

    /// One less the outlier share and the variance penalty, clamped at zero.
    fn calculate_consensus_score(&self, n: usize, variance: u128, outliers: usize) -> (r: u64)
        requires
            0 < n,
            outliers <= n,
        ensures
            r == ({
                let s = PPM - (PPM * outliers) / (n as int) - variance_penalty(variance as int);
                if s < 0 {
                    0
                } else {
                    s
                }
            }),
            r <= PPM,
    {
        let outlier_penalty = (PPM as u128) * (outliers as u128) / (n as u128);
        let variance_penalty: u128 = if variance / VARIANCE_PENALTY_SCALE > PPM as u128 {
            PPM as u128
        } else {
            variance / VARIANCE_PENALTY_SCALE
        };
        if outlier_penalty + variance_penalty > PPM as u128 {
            0
        } else {
            (PPM as u128 - outlier_penalty - variance_penalty) as u64
        }
    }
}

} // verus!
