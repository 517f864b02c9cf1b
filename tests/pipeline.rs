use price_oracle::account::{check_price_submission, get_account_size, PriceOracleError};
use price_oracle::api::{ApiError, VerificationService, VerifyResponse};
use price_oracle::consensus::ConsensusEngine;
use price_oracle::cycle::run_price_update;
use price_oracle::models::{ConsensusResult, OracleError, PriceData};
use price_oracle::stats::PRICE_SCALE;
use price_oracle::validator::PriceValidator;

fn quote(price_units: i64, confidence_ppm: u64, source: &str) -> PriceData {
    PriceData::new_at("SOL".to_string(), price_units * PRICE_SCALE, source.to_string(), 10)
        .with_confidence(confidence_ppm)
}

#[test]
fn cycle_without_quotes_fails() {
    let mut v = PriceValidator::new();
    let e = ConsensusEngine::new();
    assert_eq!(run_price_update(&mut v, &e, &[], 5).unwrap_err(), OracleError::NoPriceData);
}

#[test]
fn cycle_with_only_bad_quotes_fails() {
    let mut v = PriceValidator::new();
    let e = ConsensusEngine::new();
    let batch = vec![quote(0, 900_000, "A"), quote(-3, 900_000, "B")];
    assert_eq!(run_price_update(&mut v, &e, &batch, 5).unwrap_err(), OracleError::NoValidPrices);
}

#[test]
fn cycle_drops_rejected_quotes_before_consensus() {
    let mut v = PriceValidator::new();
    let e = ConsensusEngine::new();
    let batch = vec![quote(98, 900_000, "A"), quote(0, 900_000, "B"), quote(99, 900_000, "C")];
    let r = run_price_update(&mut v, &e, &batch, 77).unwrap();
    assert_eq!(r.sources, vec!["A".to_string(), "C".to_string()]);
    assert_eq!(r.price, 98_500_000);
    assert_eq!(r.timestamp, 77);
    assert_eq!(r.asset, "SOL");
}

#[test]
fn cycle_with_one_valid_quote_lacks_sources() {
    let mut v = PriceValidator::new();
    let e = ConsensusEngine::new();
    let batch = vec![quote(98, 900_000, "A"), quote(98, 10, "B")];
    assert_eq!(
        run_price_update(&mut v, &e, &batch, 1).unwrap_err(),
        OracleError::InsufficientSources { count: 1, minimum: 2 }
    );
}

#[test]
fn result_builders_clamp() {
    let r = ConsensusResult::new_at("BTC".to_string(), 5, vec!["x".to_string()], 3)
        .with_confidence(2_000_000)
        .with_consensus_score(400_000)
        .with_variance(9)
        .with_outliers(1);
    assert_eq!(r.confidence, 1_000_000);
    assert_eq!(r.consensus_score, 400_000);
    assert_eq!(r.price_variance, 9);
    assert_eq!(r.outlier_count, 1);
    assert_eq!(r.timestamp, 3);
    let d = ConsensusResult::new("BTC".to_string(), 5, vec![]);
    assert_eq!(d.confidence, 800_000);
    assert!(d.timestamp > 0);
}

#[test]
fn quote_builders() {
    let p = PriceData::new("BTC".to_string(), 1, "s".to_string());
    assert_eq!(p.confidence, 800_000);
    assert!(p.timestamp > 0);
    let p = p.with_volume(3).with_market_cap(4).with_confidence(5);
    assert_eq!(p.volume_24h, Some(3));
    assert_eq!(p.market_cap, Some(4));
    assert_eq!(p.confidence, 5);
}

#[test]
fn account_size_counts_encoded_texts() {
    let sources = vec!["a".to_string(), "bc".to_string()];
    // 69 fixed bytes, 4 + 3 for the asset, 4 + (4 + 1) + (4 + 2) for the sources, 256 spare.
    assert_eq!(get_account_size("BTC", &sources), 347);
    assert_eq!(get_account_size("", &[]), 69 + 4 + 4 + 256);
    assert_eq!(get_account_size("é", &[]), 69 + 4 + 2 + 4 + 256);
}

#[test]
fn program_error_codes() {
    assert_eq!(PriceOracleError::UninitializedAccount.code(), 0);
    assert_eq!(PriceOracleError::InvalidSignature.code(), 1);
    assert_eq!(PriceOracleError::AccountAlreadyInitialized.code(), 2);
    assert_eq!(PriceOracleError::InvalidPriceData.code(), 3);
    assert_eq!(PriceOracleError::ConsensusFailed.code(), 4);
}

#[test]
fn api_error_statuses() {
    assert_eq!(ApiError::NotFound("x".to_string()).status_code(), 404);
    assert_eq!(ApiError::BadRequest("x".to_string()).status_code(), 400);
    assert_eq!(ApiError::Unauthorized("x".to_string()).status_code(), 401);
    assert_eq!(ApiError::InternalServerError("x".to_string()).status_code(), 500);
    assert_eq!(ApiError::SignatureVerificationFailed.status_code(), 400);
    assert_eq!(ApiError::SolanaError("x".to_string()).status_code(), 500);
    let _ = VerificationService::new();
    assert!(VerifyResponse { valid: true }.valid);
}

#[test]
fn program_accepts_only_sane_submissions() {
    assert_eq!(check_price_submission(1, 1_000_000), Ok(()));
    assert_eq!(check_price_submission(0, 500_000), Err(PriceOracleError::InvalidPriceData));
    assert_eq!(check_price_submission(-4, 500_000), Err(PriceOracleError::InvalidPriceData));
    assert_eq!(check_price_submission(10, 1_000_001), Err(PriceOracleError::InvalidPriceData));
}
