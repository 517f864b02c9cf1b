use price_oracle::consensus::ConsensusEngine;
use price_oracle::models::{ConsensusParams, OracleError, PriceData};
use price_oracle::stats::PRICE_SCALE;

fn quote(price_units: i64, confidence_ppm: u64, source: &str) -> PriceData {
    PriceData::new("BTC".to_string(), price_units * PRICE_SCALE, source.to_string())
        .with_confidence(confidence_ppm)
}

#[test]
fn test_consensus_with_good_data() {
    let engine = ConsensusEngine::new();

    let price_data = vec![
        quote(45000, 900_000, "Source1"),
        quote(45100, 800_000, "Source2"),
        quote(44900, 850_000, "Source3"),
    ];

    let result = engine.run_consensus(&price_data).unwrap();

    assert_eq!(result.asset, "BTC");
    assert!(result.price > 44000 * PRICE_SCALE && result.price < 46000 * PRICE_SCALE);
    // Mean confidence 0.85 times the variance factor 1 - 6666.67 / 10000.
    assert_eq!(result.confidence, 283_333);
    assert_eq!(result.outlier_count, 0);
}

#[test]
fn test_consensus_with_outlier() {
    let engine = ConsensusEngine::new();

    let price_data = vec![
        quote(45000, 900_000, "Source1"),
        quote(45100, 800_000, "Source2"),
        quote(50000, 700_000, "Source3"),
    ];

    let result = engine.run_consensus(&price_data).unwrap();

    assert_eq!(result.asset, "BTC");
    // With three prices no z-score can exceed sqrt(2) < 2.5: nothing is
    // excluded, and the weighted mean is 111580 / 2.4.
    assert_eq!(result.outlier_count, 0);
    assert_eq!(result.price, 46_491_666_666);
}

#[test]
fn test_consensus_insufficient_sources() {
    let engine = ConsensusEngine::new();

    let price_data = vec![PriceData::new("BTC".to_string(), 45000 * PRICE_SCALE, "Source1".to_string())];

    let result = engine.run_consensus(&price_data);
    assert!(result.is_err());
    assert_eq!(result.unwrap_err(), OracleError::InsufficientSources { count: 1, minimum: 2 });
}

fn batch_with_one_far_price() -> Vec<PriceData> {
    let mut v = Vec::new();
    for i in 0..9 {
        v.push(quote(45000, 800_000, &format!("Source{}", i)));
    }
    v.push(quote(50000, 800_000, "Far"));
    v
}

#[test]
fn outlier_is_excluded_from_weighting() {
    let engine = ConsensusEngine::new();
    let result = engine.run_consensus(&batch_with_one_far_price()).unwrap();
    assert_eq!(result.outlier_count, 1);
    assert!(result.price < 46000 * PRICE_SCALE);
    assert_eq!(result.price, 45000 * PRICE_SCALE);
    // Variance 2250000 squared units: 2.25e18 squared micro-units.
    assert_eq!(result.price_variance, 2_250_000_000_000_000_000);
    // 1 - 0.1 - min(225, 1) clamps to 0.
    assert_eq!(result.consensus_score, 0);
    // 0.8 * 0.1 * 0.9
    assert_eq!(result.confidence, 72_000);
    assert_eq!(result.sources.len(), 10);
    assert_eq!(result.sources[9], "Far");
}

#[test]
fn too_many_outliers_rejects_batch() {
    let params = ConsensusParams {
        min_sources: 2,
        max_outlier_percentage: 0,
        confidence_threshold: 700_000,
        price_variance_threshold: 50_000,
    };
    let engine = ConsensusEngine::with_params(params);
    let result = engine.run_consensus(&batch_with_one_far_price());
    assert_eq!(result.unwrap_err(), OracleError::TooManyOutliers { outliers: 1, total: 10 });
}

#[test]
fn empty_batch_is_rejected() {
    let engine = ConsensusEngine::new();
    let result = engine.run_consensus(&[]);
    assert_eq!(result.unwrap_err(), OracleError::EmptyBatch);
}

#[test]
fn identical_prices_have_no_outliers() {
    let engine = ConsensusEngine::new();
    let batch = vec![quote(100, 500_000, "A"), quote(100, 700_000, "B"), quote(100, 900_000, "C")];
    let result = engine.run_consensus_at(&batch, 1_700_000_000).unwrap();
    assert_eq!(result.outlier_count, 0);
    assert_eq!(result.price, 100 * PRICE_SCALE);
    assert_eq!(result.price_variance, 0);
    assert_eq!(result.consensus_score, 1_000_000);
    assert_eq!(result.confidence, 700_000);
    assert_eq!(result.timestamp, 1_700_000_000);
    assert_eq!(result.sources, vec!["A".to_string(), "B".to_string(), "C".to_string()]);
}

#[test]
fn zero_confidences_fall_back_to_plain_mean() {
    let engine = ConsensusEngine::new();
    let batch = vec![quote(100, 0, "A"), quote(101, 0, "B"), quote(103, 0, "C")];
    let result = engine.run_consensus(&batch).unwrap();
    assert_eq!(result.outlier_count, 0);
    // (100 + 101 + 103) / 3 = 101.333333 units
    assert_eq!(result.price, 101_333_333);
    assert_eq!(result.confidence, 0);
}

#[test]
fn consensus_price_stays_within_price_range() {
    let engine = ConsensusEngine::new();
    let batch = vec![quote(10, 1_000_000, "A"), quote(20, 10_000, "B"), quote(30, 500_000, "C"), quote(12, 0, "D")];
    let result = engine.run_consensus(&batch).unwrap();
    assert!(result.price >= 10 * PRICE_SCALE && result.price <= 30 * PRICE_SCALE);
}

#[test]
fn metrics_stay_in_unit_range_for_extreme_inputs() {
    let engine = ConsensusEngine::new();
    let batch = vec![
        PriceData::new("X".to_string(), 1, "A".to_string()).with_confidence(u64::MAX),
        PriceData::new("X".to_string(), 1_000_000_000_000, "B".to_string()).with_confidence(1_000_000),
        PriceData::new("X".to_string(), 1, "C".to_string()).with_confidence(0),
    ];
    let result = engine.run_consensus(&batch).unwrap();
    assert!(result.confidence <= 1_000_000);
    assert!(result.consensus_score <= 1_000_000);
    assert_eq!(result.consensus_score, 0);

    let mut wild = batch.clone();
    wild[0].confidence = u64::MAX;
    wild[2].confidence = u64::MAX;
    let result = engine.run_consensus(&wild).unwrap();
    assert!(result.confidence <= 1_000_000);
}

#[test]
fn default_params() {
    let p = ConsensusParams::default();
    assert_eq!(p.min_sources, 2);
    assert_eq!(p.max_outlier_percentage, 300_000);
    assert_eq!(p.confidence_threshold, 700_000);
    assert_eq!(p.price_variance_threshold, 50_000);
}
