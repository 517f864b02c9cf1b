//! Values that flow through the pipeline: quotes, verdicts, parameters,
//! consensus results and errors.
use vstd::prelude::*;

use crate::clock::unix_now;

verus! {

/// Parts per million: the fixed-point unit of confidences, scores and shares.
pub const PPM: u64 = 1_000_000;

/// Confidence a quote carries until the source states one (0.8).
pub const DEFAULT_QUOTE_CONFIDENCE: u64 = 800_000;

/// Confidence and score a result carries until they are computed (0.8).
pub const DEFAULT_RESULT_CONFIDENCE: u64 = 800_000;

/// `x` clamped into `[0, PPM]`.
pub open spec fn clamp_ppm(x: int) -> int {
    if x > PPM {
        PPM as int
    } else if x < 0 {
        0
    } else {
        x
    }
}

/// One price observation for one asset from one source.
#[derive(Clone, Debug)]
pub struct PriceData {
    /// Asset symbol, e.g. "BTC".
    pub asset: String,
    /// Price in micro-units of the quote currency; may be out of range until
    /// validated.
    pub price: i64,
    /// Source-asserted reliability in parts per million.
    pub confidence: u64,
    /// Seconds since the Unix epoch.
    pub timestamp: i64,
    /// Identifier of the source.
    pub source: String,
    /// Traded volume over 24 hours, in micro-units.
    pub volume_24h: Option<u64>,
    /// Market capitalisation, in micro-units.
    pub market_cap: Option<u64>,
}

impl PriceData {
    /// A quote stamped with the given time, with the default confidence.
    pub fn new_at(asset: String, price: i64, source: String, timestamp: i64) -> (r: Self)
        ensures
            r.asset == asset,
            r.price == price,
            r.source == source,
            r.timestamp == timestamp,
            r.confidence == DEFAULT_QUOTE_CONFIDENCE,
            r.volume_24h.is_none(),
            r.market_cap.is_none(),
    {
        PriceData {
            asset,
            price,
            confidence: DEFAULT_QUOTE_CONFIDENCE,
            timestamp,
            source,
            volume_24h: None,
            market_cap: None,
        }
    }

    /// A quote stamped with the current time, with the default confidence.
    pub fn new(asset: String, price: i64, source: String) -> (r: Self)
        ensures
            r.asset == asset,
            r.price == price,
            r.source == source,
            r.confidence == DEFAULT_QUOTE_CONFIDENCE,
            r.volume_24h.is_none(),
            r.market_cap.is_none(),
    {
        let now = unix_now();
        Self::new_at(asset, price, source, now)
    }

    /// The same quote with its confidence set, clamped into `[0, PPM]`.
    pub fn with_confidence(self, confidence: u64) -> (r: Self)
        ensures
            r.confidence == clamp_ppm(confidence as int),
            r.asset == self.asset,
            r.price == self.price,
            r.timestamp == self.timestamp,
            r.source == self.source,
            r.volume_24h == self.volume_24h,
            r.market_cap == self.market_cap,
    {
        let mut r = self;
        r.confidence = if confidence > PPM { PPM } else { confidence };
        r
    }

    /// The same quote with its 24 hour volume set.
    pub fn with_volume(self, volume: u64) -> (r: Self)
        ensures
            r.volume_24h == Some(volume),
            r.asset == self.asset,
            r.price == self.price,
            r.confidence == self.confidence,
            r.timestamp == self.timestamp,
            r.source == self.source,
            r.market_cap == self.market_cap,
    {
        let mut r = self;
        r.volume_24h = Some(volume);
        r
    }

    /// The same quote with its market capitalisation set.
    pub fn with_market_cap(self, market_cap: u64) -> (r: Self)
        ensures
            r.market_cap == Some(market_cap),
            r.asset == self.asset,
            r.price == self.price,
            r.confidence == self.confidence,
            r.timestamp == self.timestamp,
            r.source == self.source,
            r.volume_24h == self.volume_24h,
    {
        let mut r = self;
        r.market_cap = Some(market_cap);
        r
    }
}

/// Aggregate of one batch of validated quotes.
#[derive(Clone, Debug)]
pub struct ConsensusResult {
    pub asset: String,
    /// Aggregate price in micro-units.
    pub price: i64,
    /// Trust in the aggregate, in parts per million.
    pub confidence: u64,
    /// Seconds since the Unix epoch.
    pub timestamp: i64,
    /// Contributing sources, in input order.
    pub sources: Vec<String>,
    /// Agreement between the sources, in parts per million.
    pub consensus_score: u64,
    /// Population variance of the batch before outlier removal, in squared
    /// micro-units, rounded down.
    pub price_variance: u128,
    pub outlier_count: usize,
}

impl ConsensusResult {
    /// A result stamped with the given time, with default metrics.
    pub fn new_at(asset: String, price: i64, sources: Vec<String>, timestamp: i64) -> (r: Self)
        ensures
            r.asset == asset,
            r.price == price,
            r.sources == sources,
            r.timestamp == timestamp,
            r.confidence == DEFAULT_RESULT_CONFIDENCE,
            r.consensus_score == DEFAULT_RESULT_CONFIDENCE,
            r.price_variance == 0,
            r.outlier_count == 0,
    {
        ConsensusResult {
            asset,
            price,
            confidence: DEFAULT_RESULT_CONFIDENCE,
            timestamp,
            sources,
            consensus_score: DEFAULT_RESULT_CONFIDENCE,
            price_variance: 0,
            outlier_count: 0,
        }
    }

    /// A result stamped with the current time, with default metrics.
    pub fn new(asset: String, price: i64, sources: Vec<String>) -> (r: Self)
        ensures
            r.asset == asset,
            r.price == price,
            r.sources == sources,
            r.confidence == DEFAULT_RESULT_CONFIDENCE,
            r.consensus_score == DEFAULT_RESULT_CONFIDENCE,
            r.price_variance == 0,
            r.outlier_count == 0,
    {
        let now = unix_now();
        Self::new_at(asset, price, sources, now)
    }

    /// The same result with its confidence set, clamped into `[0, PPM]`.
    pub fn with_confidence(self, confidence: u64) -> (r: Self)
        ensures
            r == (ConsensusResult { confidence: clamp_ppm(confidence as int) as u64, ..self }),
    {
        let mut r = self;
        r.confidence = if confidence > PPM { PPM } else { confidence };
        r
    }

    /// The same result with its consensus score set, clamped into `[0, PPM]`.
    pub fn with_consensus_score(self, score: u64) -> (r: Self)
        ensures
            r == (ConsensusResult { consensus_score: clamp_ppm(score as int) as u64, ..self }),
    {
        let mut r = self;
        r.consensus_score = if score > PPM { PPM } else { score };
        r
    }

    /// The same result with its variance set.
    pub fn with_variance(self, variance: u128) -> (r: Self)
        ensures
            r == (ConsensusResult { price_variance: variance, ..self }),
    {
        let mut r = self;
        r.price_variance = variance;
        r
    }

    /// The same result with its outlier count set.
    pub fn with_outliers(self, count: usize) -> (r: Self)
        ensures
            r == (ConsensusResult { outlier_count: count, ..self }),
    {
        let mut r = self;
        r.outlier_count = count;
        r
    }
}

/// Settings of an oracle node.
#[derive(Clone, Debug)]
pub struct OracleConfig {
    pub asset: String,
    /// Seconds between update cycles.
    pub update_interval: u64,
    pub rpc_url: String,
    pub program_id: Option<String>,
    /// Lowest confidence worth publishing, in parts per million.
    pub min_confidence: u64,
    /// Largest relative variance worth publishing, in parts per million.
    pub max_price_variance: u64,
}

/// Track record of one source.
#[derive(Clone, Debug)]
pub struct SourceReliability {
    pub source_name: String,
    /// In parts per million.
    pub reliability_score: u64,
    /// Share of successful fetches, in parts per million.
    pub success_rate: u64,
    /// Mean response time in milliseconds.
    pub avg_response_time: u64,
    /// Seconds since the Unix epoch.
    pub last_update: i64,
}

/// Configuration of the consensus engine.
#[derive(Clone, Copy, Debug, PartialEq, Eq, Structural)]
pub struct ConsensusParams {
    /// Fewest validated quotes a batch must hold.
    pub min_sources: usize,
    /// Largest share of a batch that may be outliers, in parts per million.
    pub max_outlier_percentage: u64,
    /// Reserved for consumers of the result, in parts per million.
    pub confidence_threshold: u64,
    /// Reserved for consumers of the result, in parts per million.
    pub price_variance_threshold: u64,
}

impl Default for ConsensusParams {
    fn default() -> (r: Self)
        ensures
            r.min_sources == 2,
            r.max_outlier_percentage == 300_000,
            r.confidence_threshold == 700_000,
            r.price_variance_threshold == 50_000,
    {
        ConsensusParams {
            min_sources: 2,
            max_outlier_percentage: 300_000,
            confidence_threshold: 700_000,
            price_variance_threshold: 50_000,
        }
    }
}

/// Why a quote was rejected, or flagged while still accepted.
#[derive(Clone, Copy, Debug, PartialEq, Eq, Structural)]
pub enum ValidationReason {
    /// The price is zero or negative.
    NonPositivePrice,
    /// The price is above the sanity ceiling.
    PriceTooHigh,
    /// The price is more than three standard deviations from the history's
    /// mean; the move, relative to the mean, in hundredths of a percent.
    LargePriceMovement { move_hundredths_percent: u128 },
    /// The price barely moves although the history is volatile.
    SuspiciouslySmallMovement,
    /// The source's own confidence is below the floor.
    ConfidenceTooLow,
}

/// Verdict on one quote.
#[derive(Clone, Copy, Debug, PartialEq, Eq, Structural)]
pub struct ValidationResult {
    pub is_valid: bool,
    pub reason: Option<ValidationReason>,
    /// Replacement price; reserved, never set by the validator.
    pub adjusted_price: Option<i64>,
    /// Factor applied to the quote's confidence, in parts per million.
    pub confidence_adjustment: u64,
}

/// Failures of a pipeline stage.
#[derive(Clone, Debug, PartialEq, Eq)]
pub enum OracleError {
    /// A fetcher failed; the source is left out of this cycle.
    SourceUnavailable(String),
    /// No fetcher delivered a quote in this cycle.
    NoPriceData,
    /// The validator accepted no quote of the batch.
    NoValidPrices,
    /// The consensus engine was handed an empty batch.
    EmptyBatch,
    /// The batch holds fewer quotes than the parameters ask for.
    InsufficientSources { count: usize, minimum: usize },
    /// The share of outliers exceeds the parameters' maximum.
    TooManyOutliers { outliers: usize, total: usize },
    /// The result could not be handed to the submission sink.
    SubmissionFailed(String),
}

} // verus!
