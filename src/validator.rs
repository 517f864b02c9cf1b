//! Per-quote validation against sanity bounds and the asset's rolling
//! history, and the bookkeeping of those histories.
use vstd::prelude::*;

use crate::history::{
    push_bounded, AssetHistory, DEFAULT_HISTORY_CAPACITY, MAX_HISTORY_CAPACITY,
};
use crate::models::{OracleError, PriceData, ValidationReason, ValidationResult, PPM};
use crate::stats::{
    deviation, deviation_sq, is_isqrt, isqrt, lemma_sum_upto_bounds, max_upto, min_upto,
    prices_in_range, seq_max, seq_min, spread, sum_of, sum_prices, sum_sq_deviations, MAX_PRICE,
};

verus! {

/// Lowest source confidence a quote without a history flag may carry (0.1).
pub const MIN_SOURCE_CONFIDENCE: u64 = 100_000;

/// Confidence factor of a quote that moves far from its history (0.7).
pub const LARGE_MOVE_ADJUSTMENT: u64 = 700_000;

/// Confidence factor of a quote that barely moves in a volatile history (0.8).
pub const SMALL_MOVE_ADJUSTMENT: u64 = 800_000;

/// Fewest history entries the historical checks need.
pub const MIN_HISTORY_FOR_CHECKS: usize = 3;

pub open spec fn abs_int(x: int) -> int {
    if x < 0 {
        -x
    } else {
        x
    }
}

/// A rejection for `reason`.
pub open spec fn rejection(reason: ValidationReason) -> ValidationResult {
    ValidationResult {
        is_valid: false,
        reason: Some(reason),
        adjusted_price: None,
        confidence_adjustment: 0,
    }
}

/// The verdict of the historical checks on price `p`, if they decide one.
///
/// With `m` entries summing to `H`, mean `H / m` and variance
/// `spread(h) / m^3`, and `d = m p - H`:
/// `|p - mean| > 3 std_dev` is `m d^2 > 9 spread(h)`;
/// `std_dev > mean / 100` is `10^4 spread(h) > m H^2`;
/// `|p - mean| < mean / 1000` is `1000 |d| < H`.
pub open spec fn history_flag(p: i64, h: Seq<i64>) -> Option<ValidationResult> {
    let m = h.len() as int;
    let total = sum_of(h);
    let d = deviation(p, m, total);
    if m < MIN_HISTORY_FOR_CHECKS {
        None
    } else if m * (d * d) > 9 * spread(h) {
        Some(
            ValidationResult {
                is_valid: true,
                reason: Some(
                    ValidationReason::LargePriceMovement {
                        move_hundredths_percent: (10000 * abs_int(d) / total) as u128,
                    },
                ),
                adjusted_price: None,
                confidence_adjustment: LARGE_MOVE_ADJUSTMENT,
            },
        )
    } else if 10000 * spread(h) > m * (total * total) && 1000 * abs_int(d) < total {
        Some(
            ValidationResult {
                is_valid: true,
                reason: Some(ValidationReason::SuspiciouslySmallMovement),
                adjusted_price: None,
                confidence_adjustment: SMALL_MOVE_ADJUSTMENT,
            },
        )
    } else {
        None
    }
}

/// The verdict on quote `q` given the accepted prices `h` of its asset: the
/// first rule that decides wins.
pub open spec fn validation_outcome(q: PriceData, h: Seq<i64>) -> ValidationResult {
    if q.price <= 0 {
        rejection(ValidationReason::NonPositivePrice)
    } else if q.price > MAX_PRICE {
        rejection(ValidationReason::PriceTooHigh)
    } else if history_flag(q.price, h) is Some {
        history_flag(q.price, h).unwrap()
    } else if q.confidence < MIN_SOURCE_CONFIDENCE {
        rejection(ValidationReason::ConfidenceTooLow)
    } else {
        ValidationResult {
            is_valid: true,
            reason: None,
            adjusted_price: None,
            confidence_adjustment: PPM,
        }
    }
}

/// `c * factor`, both in parts per million, rounded down and clamped to one.
pub open spec fn adjusted_confidence(c: u64, factor: u64) -> u64 {
    if c * factor / (PPM as int) > PPM {
        PPM
    } else {
        (c * factor / (PPM as int)) as u64
    }
}

/// The history of `a` in a table of histories; empty when it has none.
pub open spec fn history_in(hs: Map<Seq<char>, Seq<i64>>, a: Seq<char>) -> Seq<i64> {
    if hs.contains_key(a) {
        hs[a]
    } else {
        Seq::empty()
    }
}

/// Validating `qs` in order against the histories `hs` with capacity `cap`:
/// the histories afterwards, and the accepted quotes with their adjusted
/// confidences. Each accepted price joins its asset's history before the
/// next quote is judged.
pub open spec fn validate_fold(hs: Map<Seq<char>, Seq<i64>>, qs: Seq<PriceData>, cap: int) -> (
    Map<Seq<char>, Seq<i64>>,
    Seq<PriceData>,
)
    decreases qs.len(),
{
    if qs.len() == 0 {
        (hs, Seq::empty())
    } else {
        let (h1, acc) = validate_fold(hs, qs.drop_last(), cap);
        let q = qs.last();
        let o = validation_outcome(q, history_in(h1, q.asset@));
        if o.is_valid {
            (
                h1.insert(q.asset@, push_bounded(history_in(h1, q.asset@), q.price, cap)),
                acc.push(
                    PriceData {
                        confidence: adjusted_confidence(q.confidence, o.confidence_adjustment),
                        ..q
                    },
                ),
            )
        } else {
            (h1, acc)
        }
    }
}

/// A quote whose price is zero or negative is rejected, whatever the history.
pub proof fn lemma_non_positive_price_rejected(q: PriceData, h: Seq<i64>)
    requires
        q.price <= 0,
    ensures
        !validation_outcome(q, h).is_valid,
        validation_outcome(q, h).reason == Some(ValidationReason::NonPositivePrice),
{
}

/// A batch made of one quote with a zero or negative price has no accepted
/// quote and leaves the histories as they were, so validating it fails.
pub proof fn lemma_non_positive_batch_rejected(hs: Map<Seq<char>, Seq<i64>>, q: PriceData, cap: int)
    requires
        q.price <= 0,
    ensures
        validate_fold(hs, seq![q], cap).1.len() == 0,
        validate_fold(hs, seq![q], cap).0 == hs,
{
    let s1 = seq![q];
    assert(s1.drop_last() =~= Seq::<PriceData>::empty());
    assert(s1.last() == q);
    assert(validate_fold(hs, Seq::<PriceData>::empty(), cap) == (hs, Seq::<PriceData>::empty()));
    assert(!validation_outcome(q, history_in(hs, q.asset@)).is_valid);
}

/// The verdict on a quote depends on the quote and its asset's history
/// alone: judged twice against equal histories, it is the same.
pub proof fn lemma_validation_deterministic(
    q: PriceData,
    before: Map<Seq<char>, Seq<i64>>,
    again: Map<Seq<char>, Seq<i64>>,
)
    requires
        before == again,
    ensures
        validation_outcome(q, history_in(before, q.asset@)) == validation_outcome(
            q,
            history_in(again, q.asset@),
        ),
{
}

/// The history of `a` among `e[i..]`: that of the first entry for `a`.
pub open spec fn lookup_from(e: Seq<AssetHistory>, a: Seq<char>, i: int) -> Seq<i64>
    decreases e.len() - i,
{
    if i < 0 || i >= e.len() {
        Seq::empty()
    } else if e[i].spec_asset() == a {
        e[i]@
    } else {
        lookup_from(e, a, i + 1)
    }
}

proof fn lemma_lookup_update(e: Seq<AssetHistory>, e2: Seq<AssetHistory>, j: int, b: Seq<char>, i: int)
    requires
        0 <= i,
        0 <= j < e.len(),
        e2.len() == e.len(),
        forall|t: int| 0 <= t < e.len() ==> #[trigger] e2[t].spec_asset() == e[t].spec_asset(),
        forall|t: int| 0 <= t < e.len() && t != j ==> #[trigger] e2[t]@ == e[t]@,
        forall|t: int| 0 <= t < j ==> #[trigger] e[t].spec_asset() != e[j].spec_asset(),
    ensures
        i <= j && b == e[j].spec_asset() ==> lookup_from(e2, b, i) == e2[j]@,
        b != e[j].spec_asset() ==> lookup_from(e2, b, i) == lookup_from(e, b, i),
    decreases e.len() - i,
{
    if i < e.len() {
        lemma_lookup_update(e, e2, j, b, i + 1);
        assert(e2[i].spec_asset() == e[i].spec_asset());
    }
}

proof fn lemma_lookup_append(e: Seq<AssetHistory>, x: AssetHistory, b: Seq<char>, i: int)
    requires
        0 <= i,
        forall|t: int| 0 <= t < e.len() ==> #[trigger] e[t].spec_asset() != x.spec_asset(),
    ensures
        i <= e.len() && b == x.spec_asset() ==> lookup_from(e.push(x), b, i) == x@,
        b != x.spec_asset() ==> lookup_from(e.push(x), b, i) == lookup_from(e, b, i),
    decreases e.len() + 1 - i,
{
    if i <= e.len() {
        lemma_lookup_append(e, x, b, i + 1);
        assert(e.push(x)[i] == if i < e.len() {
            e[i]
        } else {
            x
        });
    }
}

proof fn lemma_lookup_wf(e: Seq<AssetHistory>, a: Seq<char>, i: int, cap: int)
    requires
        0 <= i,
        0 <= cap,
        forall|t: int| 0 <= t < e.len() ==> (#[trigger] e[t]).wf() && e[t].spec_capacity() == cap,
    ensures
        lookup_from(e, a, i).len() <= cap,
        prices_in_range(lookup_from(e, a, i)),
    decreases e.len() - i,
{
    if i < e.len() {
        lemma_lookup_wf(e, a, i + 1, cap);
        e[i].lemma_wf();
    }
}

/// Summary of one asset's history; prices in micro-units, the variance in
/// squared micro-units, each rounded down.
#[derive(Clone, Copy, Debug, PartialEq, Eq, Structural)]
pub struct PriceStatistics {
    pub count: usize,
    pub mean: i64,
    pub std_dev: u128,
    pub min: i64,
    pub max: i64,
    pub variance: u128,
}

impl Default for PriceStatistics {
    fn default() -> (r: Self)
        ensures
            r == (PriceStatistics { count: 0, mean: 0, std_dev: 0, min: 0, max: 0, variance: 0 }),
    {
        PriceStatistics { count: 0, mean: 0, std_dev: 0, min: 0, max: 0, variance: 0 }
    }
}

/// What the statistics of a non-empty history `h` hold.
pub open spec fn statistics_of(h: Seq<i64>, st: PriceStatistics) -> bool {
    let m = h.len() as int;
    &&& st.count == m
    &&& st.mean == sum_of(h) / m
    &&& st.variance == spread(h) / (m * m * m)
    &&& is_isqrt(st.variance as int, st.std_dev as int)
    &&& st.min == seq_min(h)
    &&& st.max == seq_max(h)
}

/// Judges quotes and keeps a rolling history of accepted prices per asset.
pub struct PriceValidator {
    price_history: Vec<AssetHistory>,
    max_history_size: usize,
}

impl PriceValidator {
    /// Accepted prices of every asset, oldest first; empty for an asset
    /// never seen.
    pub closed spec fn histories(&self) -> Map<Seq<char>, Seq<i64>> {
        Map::new(|a: Seq<char>| true, |a: Seq<char>| lookup_from(self.price_history@, a, 0))
    }

    /// Capacity of each asset's history.
    pub closed spec fn capacity(&self) -> nat {
        self.max_history_size as nat
    }

    /// Capacity within bounds, every history well formed with that
    /// capacity, and at most one history per asset.
    pub closed spec fn wf(&self) -> bool {
        &&& self.max_history_size <= MAX_HISTORY_CAPACITY
        &&& forall|t: int|
            0 <= t < self.price_history@.len() ==> (#[trigger] self.price_history@[t]).wf()
                && self.price_history@[t].spec_capacity() == self.max_history_size
        &&& forall|t: int, u: int|
            0 <= t < u < self.price_history@.len() ==> #[trigger] self.price_history@[t].spec_asset()
                != #[trigger] self.price_history@[u].spec_asset()
    }

    /// Every history stays within the capacity and holds accepted prices only.
    pub proof fn lemma_histories_bounded(&self, a: Seq<char>)
        requires
            self.wf(),
        ensures
            self.histories().contains_key(a),
            self.histories()[a].len() <= self.capacity(),
            prices_in_range(self.histories()[a]),
    {
        lemma_lookup_wf(self.price_history@, a, 0, self.max_history_size as int);
    }

    /// A validator with no history and the default capacity.
    pub fn new() -> (r: Self)
        ensures
            r.wf(),
            r.capacity() == DEFAULT_HISTORY_CAPACITY,
            forall|a: Seq<char>| #[trigger] history_in(r.histories(), a) == Seq::<i64>::empty(),
    {
        Self::with_capacity(DEFAULT_HISTORY_CAPACITY)
    }

    /// A validator with no history whose histories hold `capacity` prices.
    pub fn with_capacity(capacity: usize) -> (r: Self)
        requires
            capacity <= MAX_HISTORY_CAPACITY,
        ensures
            r.wf(),
            r.capacity() == capacity,
            forall|a: Seq<char>| #[trigger] history_in(r.histories(), a) == Seq::<i64>::empty(),
    {
        PriceValidator { price_history: Vec::new(), max_history_size: capacity }
    }

    /// Index of the history of `asset`, if there is one.
    fn find_history(&self, asset: &String) -> (r: Option<usize>)
        ensures
            r matches Some(j) ==> {
                &&& j < self.price_history@.len()
                &&& self.price_history@[j as int].spec_asset() == asset@
                &&& forall|t: int| 0 <= t < j ==> #[trigger] self.price_history@[t].spec_asset() != asset@
                &&& lookup_from(self.price_history@, asset@, 0) == self.price_history@[j as int]@
            },
            r is None ==> {
                &&& forall|t: int| 0 <= t < self.price_history@.len() ==> #[trigger] self.price_history@[t].spec_asset() != asset@
                &&& lookup_from(self.price_history@, asset@, 0) == Seq::<i64>::empty()
            },
    {
        let ghost e = self.price_history@;
        let mut i: usize = 0;
        while i < self.price_history.len()
            invariant
                e == self.price_history@,
                i <= e.len(),
                forall|t: int| 0 <= t < i ==> #[trigger] e[t].spec_asset() != asset@,
                lookup_from(e, asset@, 0) == lookup_from(e, asset@, i as int),
            decreases e.len() - i,
        {
            if self.price_history[i].asset().eq(asset) {
                return Some(i);
            }
            i = i + 1;
        }
        None
    }

    /// The verdict of the historical checks on `price`, if they decide one.
    fn validate_against_history(&self, price: i64, history: &[i64]) -> (r: Option<ValidationResult>)
        requires
            0 < price <= MAX_PRICE,
            prices_in_range(history@),
            history@.len() <= MAX_HISTORY_CAPACITY,
        ensures
            r == history_flag(price, history@),
    {
        let m = history.len();
        if m < MIN_HISTORY_FOR_CHECKS {
            return None;
        }
        let total = sum_prices(history);
        proof {
            lemma_sum_upto_bounds(history@, m as int);
        }
        let spread_total = sum_sq_deviations(history, m as i128, total);
        let (dist, sq) = deviation_sq(price, m as i128, total);
        let ghost d = deviation(price, m as int, total as int);
        assert(m * sq <= MAX_HISTORY_CAPACITY * 100_000_000_000_000_000_000_000_000_000_000) by (nonlinear_arith)
            requires m <= MAX_HISTORY_CAPACITY, sq <= 100_000_000_000_000_000_000_000_000_000_000u128;
        if (m as u128) * sq > 9 * spread_total {
            assert(dist == abs_int(d));
            return Some(
                ValidationResult {
                    is_valid: true,
                    reason: Some(
                        ValidationReason::LargePriceMovement {
                            move_hundredths_percent: 10000 * dist / (total as u128),
                        },
                    ),
                    adjusted_price: None,
                    confidence_adjustment: LARGE_MOVE_ADJUSTMENT,
                },
            );
        }
        let t = total as u128;
        assert(t * t <= 1_000_000_000_000_000 * 1_000_000_000_000_000 && m * (t * t) <= MAX_HISTORY_CAPACITY * (1_000_000_000_000_000 * 1_000_000_000_000_000)) by (nonlinear_arith)
            requires 0 <= t <= MAX_HISTORY_CAPACITY * MAX_PRICE, m <= MAX_HISTORY_CAPACITY;
        let scaled_mean_sq = (m as u128) * (t * t);
        proof {
            lemma_gt_div(spread_total as int, scaled_mean_sq as int, 10000);
        }
        let volatile = spread_total > scaled_mean_sq / 10000;
        assert(dist == abs_int(d));
        if volatile && 1000 * dist < t {
            return Some(
                ValidationResult {
                    is_valid: true,
                    reason: Some(ValidationReason::SuspiciouslySmallMovement),
                    adjusted_price: None,
                    confidence_adjustment: SMALL_MOVE_ADJUSTMENT,
                },
            );
        }
        None
    }

    /// The verdict on one quote given the current histories; the histories
    /// are left as they are.
    pub fn validate_single_price(&self, price_data: &PriceData) -> (r: ValidationResult)
        requires
            self.wf(),
        ensures
            r == validation_outcome(*price_data, history_in(self.histories(), price_data.asset@)),
    {
        proof {
            self.lemma_histories_bounded(price_data.asset@);
        }
        if price_data.price <= 0 {
            return ValidationResult {
                is_valid: false,
                reason: Some(ValidationReason::NonPositivePrice),
                adjusted_price: None,
                confidence_adjustment: 0,
            };
        }
        if price_data.price > MAX_PRICE {
            return ValidationResult {
                is_valid: false,
                reason: Some(ValidationReason::PriceTooHigh),
                adjusted_price: None,
                confidence_adjustment: 0,
            };
        }
        let found = self.find_history(&price_data.asset);
        let flag = match found {
            Some(j) => {
                proof {
                    self.price_history@[j as int].lemma_wf();
                }
                self.validate_against_history(price_data.price, self.price_history[j].prices())
            },
            None => None,
        };
        assert(history_in(self.histories(), price_data.asset@) == lookup_from(self.price_history@, price_data.asset@, 0));
        assert(flag == history_flag(price_data.price, history_in(self.histories(), price_data.asset@)));
        if let Some(v) = flag {
            return v;
        }
        if price_data.confidence < MIN_SOURCE_CONFIDENCE {
            return ValidationResult {
                is_valid: false,
                reason: Some(ValidationReason::ConfidenceTooLow),
                adjusted_price: None,
                confidence_adjustment: 0,
            };
        }
        ValidationResult { is_valid: true, reason: None, adjusted_price: None, confidence_adjustment: PPM }
    }

    /// Appends an accepted price to the history of `asset`, creating the
    /// history on first use.
    fn update_price_history(&mut self, asset: &String, price: i64)
        requires
            old(self).wf(),
            0 < price <= MAX_PRICE,
        ensures
            final(self).wf(),
            final(self).capacity() == old(self).capacity(),
            final(self).histories() == old(self).histories().insert(
                asset@,
                push_bounded(
                    history_in(old(self).histories(), asset@),
                    price,
                    old(self).capacity() as int,
                ),
            ),
    {
        let ghost e = self.price_history@;
        let ghost cap = self.max_history_size as int;
        let found = self.find_history(asset);
        match found {
            Some(j) => {
                proof {
                    self.price_history@[j as int].lemma_wf();
                }
                self.price_history[j].push(price);
                let ghost e2 = self.price_history@;
                assert forall|b: Seq<char>| #[trigger] lookup_from(e2, b, 0) == (if b == asset@ {
                    push_bounded(lookup_from(e, asset@, 0), price, cap)
                } else {
                    lookup_from(e, b, 0)
                }) by {
                    lemma_lookup_update(e, e2, j as int, b, 0);
                }
                assert forall|t: int| 0 <= t < e2.len() implies (#[trigger] e2[t]).wf()
                    && e2[t].spec_capacity() == cap by {
                    if t != j {
                        assert(e2[t] == e[t]);
                    }
                }
                assert forall|t: int| 0 <= t < e2.len() implies #[trigger] e2[t].spec_asset()
                    == e[t].spec_asset() by {
                    if t != j {
                        assert(e2[t] == e[t]);
                    }
                }
            },
            None => {
                let mut h = AssetHistory::new(asset.clone(), self.max_history_size);
                h.push(price);
                self.price_history.push(h);
                let ghost e2 = self.price_history@;
                assert(e2 == e.push(h));
                assert forall|b: Seq<char>| #[trigger] lookup_from(e2, b, 0) == (if b == asset@ {
                    push_bounded(lookup_from(e, asset@, 0), price, cap)
                } else {
                    lookup_from(e, b, 0)
                }) by {
                    lemma_lookup_append(e, h, b, 0);
                }
                assert forall|t: int| 0 <= t < e2.len() implies (#[trigger] e2[t]).wf()
                    && e2[t].spec_capacity() == cap by {
                    if t < e.len() {
                        assert(e2[t] == e[t]);
                    }
                }
                assert forall|t: int, u: int| 0 <= t < u < e2.len() implies #[trigger] e2[t].spec_asset()
                    != #[trigger] e2[u].spec_asset() by {
                    assert(e2[t] == e[t]);
                    if u < e.len() {
                        assert(e2[u] == e[u]);
                    }
                }
            },
        }
        assert(self.histories() =~= old(self).histories().insert(
            asset@,
            push_bounded(history_in(old(self).histories(), asset@), price, cap),
        ));
    }

    /// Validates a batch in order, appending each accepted price to its
    /// asset's history before the next quote is judged. Returns the
    /// accepted quotes, their confidences multiplied by the verdict's
    /// factor; fails when none is accepted.
    pub fn validate_prices(&mut self, price_data: &[PriceData]) -> (r: Result<Vec<PriceData>, OracleError>)
        requires
            old(self).wf(),
        ensures
            final(self).wf(),
            final(self).capacity() == old(self).capacity(),
            final(self).histories() == validate_fold(
                old(self).histories(),
                price_data@,
                old(self).capacity() as int,
            ).0,
            r matches Ok(v) ==> v@ == validate_fold(
                old(self).histories(),
                price_data@,
                old(self).capacity() as int,
            ).1 && v@.len() > 0,
            r is Err ==> r == Err::<Vec<PriceData>, OracleError>(OracleError::NoValidPrices)
                && validate_fold(old(self).histories(), price_data@, old(self).capacity() as int).1.len() == 0,
    {
        let ghost q = price_data@;
        let ghost h0 = self.histories();
        let ghost cap = self.max_history_size as int;
        let mut validated: Vec<PriceData> = Vec::new();
        let mut i: usize = 0;
        while i < price_data.len()
            invariant
                q == price_data@,
                i <= q.len(),
                self.wf(),
                self.capacity() == cap,
                (self.histories(), validated@) == validate_fold(h0, q.subrange(0, i as int), cap),
            decreases q.len() - i,
        {
            assert(q.subrange(0, i + 1).drop_last() =~= q.subrange(0, i as int));
            assert(q.subrange(0, i + 1).last() == q[i as int]);
            proof {
                self.lemma_histories_bounded(q[i as int].asset@);
            }
            let data = &price_data[i];
            let validation = self.validate_single_price(data);
            if validation.is_valid {
                let confidence = adjust_confidence(data.confidence, validation.confidence_adjustment);
                let accepted = copy_with_confidence(data, confidence);
                self.update_price_history(&data.asset, data.price);
                validated.push(accepted);
            }
            i = i + 1;
        }
        assert(q.subrange(0, q.len() as int) =~= q);
        if validated.len() == 0 {
            return Err(OracleError::NoValidPrices);
        }
        Ok(validated)
    }

    /// Statistics of the history of `asset`; `None` while it holds no price.
    pub fn get_price_statistics(&self, asset: &String) -> (r: Option<PriceStatistics>)
        requires
            self.wf(),
        ensures
            (r is None) <==> history_in(self.histories(), asset@).len() == 0,
            r matches Some(st) ==> statistics_of(history_in(self.histories(), asset@), st),
    {
        proof {
            self.lemma_histories_bounded(asset@);
        }
        let found = self.find_history(asset);
        assert(history_in(self.histories(), asset@) == lookup_from(self.price_history@, asset@, 0));
        match found {
            None => None,
            Some(j) => {
                proof {
                    self.price_history@[j as int].lemma_wf();
                }
                let history = self.price_history[j].prices();
                if history.len() == 0 {
                    return None;
                }
                Some(history_statistics(history))
            },
        }
    }
}

/// Statistics of a non-empty history.
fn history_statistics(h: &[i64]) -> (r: PriceStatistics)
    requires
        0 < h@.len() <= MAX_HISTORY_CAPACITY,
        prices_in_range(h@),
    ensures
        statistics_of(h@, r),
{
    let m = h.len();
    let total = sum_prices(h);
    let spread_total = sum_sq_deviations(h, m as i128, total);
    assert(m * m <= MAX_HISTORY_CAPACITY * MAX_HISTORY_CAPACITY && m * m * m
        <= MAX_HISTORY_CAPACITY * MAX_HISTORY_CAPACITY * MAX_HISTORY_CAPACITY && m * m * m > 0)
        by (nonlinear_arith)
        requires 0 < m <= MAX_HISTORY_CAPACITY;
    let variance = spread_total / ((m as u128) * (m as u128) * (m as u128));
    let mean = total / (m as i128);
    proof {
        lemma_sum_upto_bounds(h@, m as int);
        vstd::arithmetic::div_mod::lemma_div_is_ordered(total as int, m * MAX_PRICE, m as int);
        vstd::arithmetic::div_mod::lemma_div_multiples_vanish(MAX_PRICE as int, m as int);
        assert(m * MAX_PRICE == (m as int) * MAX_PRICE);
    }
    assert(mean <= MAX_PRICE);
    let mut lo: i64 = h[0];
    let mut hi: i64 = h[0];
    let mut i: usize = 1;
    while i < m
        invariant
            m == h@.len(),
            1 <= i <= m,
            lo == min_upto(h@, i as int),
            hi == max_upto(h@, i as int),
        decreases m - i,
    {
        if h[i] < lo {
            lo = h[i];
        }
        if h[i] > hi {
            hi = h[i];
        }
        i = i + 1;
    }
    PriceStatistics {
        count: m,
        mean: mean as i64,
        std_dev: isqrt(variance),
        min: lo,
        max: hi,
        variance,
    }
}

/// `c * factor`, both in parts per million, rounded down and clamped to one.
fn adjust_confidence(c: u64, factor: u64) -> (r: u64)
    ensures
        r == adjusted_confidence(c, factor),
{
    assert(c * factor <= 0xFFFF_FFFF_FFFF_FFFFu64 * 0xFFFF_FFFF_FFFF_FFFFu64) by (nonlinear_arith)
        requires c <= 0xFFFF_FFFF_FFFF_FFFFu64, factor <= 0xFFFF_FFFF_FFFF_FFFFu64;
    let raw = (c as u128) * (factor as u128) / (PPM as u128);
    if raw > PPM as u128 {
        PPM
    } else {
        raw as u64
    }
}

/// A copy of `q` with its confidence replaced.
fn copy_with_confidence(q: &PriceData, confidence: u64) -> (r: PriceData)
    ensures
        r == (PriceData { confidence, ..*q }),
{
    PriceData {
        asset: q.asset.clone(),
        price: q.price,
        confidence,
        timestamp: q.timestamp,
        source: q.source.clone(),
        volume_24h: q.volume_24h,
        market_cap: q.market_cap,
    }
}

proof fn lemma_gt_div(a: int, x: int, k: int)
    requires
        x >= 0,
        k > 0,
    ensures
        (a > x / k) == (k * a > x),
{
    vstd::arithmetic::div_mod::lemma_fundamental_div_mod(x, k);
    vstd::arithmetic::div_mod::lemma_mod_pos_bound(x, k);
    let q = x / k;
    let r = x % k;
    assert((a > q) == (k * a > x)) by (nonlinear_arith)
        requires x == k * q + r, 0 <= r < k, k > 0;
}

} // verus!
