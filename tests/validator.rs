use price_oracle::history::AssetHistory;
use price_oracle::models::{OracleError, PriceData, ValidationReason};
use price_oracle::stats::{isqrt, PRICE_SCALE};
use price_oracle::validator::{PriceStatistics, PriceValidator};

#[test]
fn test_validate_positive_price() {
    let mut validator = PriceValidator::new();

    let price_data = vec![PriceData::new("BTC".to_string(), 45000 * PRICE_SCALE, "Test".to_string())];

    let result = validator.validate_prices(&price_data).unwrap();
    assert_eq!(result.len(), 1);
    assert_eq!(result[0].price, 45000 * PRICE_SCALE);
}

#[test]
fn test_validate_negative_price() {
    let mut validator = PriceValidator::new();

    let price_data = vec![PriceData::new("BTC".to_string(), -100 * PRICE_SCALE, "Test".to_string())];

    let result = validator.validate_prices(&price_data);
    assert!(result.is_err());
}

#[test]
fn test_validate_zero_price() {
    let mut validator = PriceValidator::new();

    let price_data = vec![PriceData::new("BTC".to_string(), 0, "Test".to_string())];

    let result = validator.validate_prices(&price_data);
    assert!(result.is_err());
    assert_eq!(result.unwrap_err(), OracleError::NoValidPrices);
}

fn q(price_micros: i64, confidence: u64) -> PriceData {
    PriceData::new_at("ETH".to_string(), price_micros, "S".to_string(), 0).with_confidence(confidence)
}

#[test]
fn rejection_reasons() {
    let v = PriceValidator::new();
    let r = v.validate_single_price(&q(0, 900_000));
    assert!(!r.is_valid);
    assert_eq!(r.reason, Some(ValidationReason::NonPositivePrice));
    let r = v.validate_single_price(&q(-5, 900_000));
    assert_eq!(r.reason, Some(ValidationReason::NonPositivePrice));
    let r = v.validate_single_price(&q(1_000_000 * PRICE_SCALE + 1, 900_000));
    assert!(!r.is_valid);
    assert_eq!(r.reason, Some(ValidationReason::PriceTooHigh));
    let r = v.validate_single_price(&q(1_000_000 * PRICE_SCALE, 900_000));
    assert!(r.is_valid);
    let r = v.validate_single_price(&q(100 * PRICE_SCALE, 99_999));
    assert!(!r.is_valid);
    assert_eq!(r.reason, Some(ValidationReason::ConfidenceTooLow));
    let r = v.validate_single_price(&q(100 * PRICE_SCALE, 100_000));
    assert!(r.is_valid);
    assert_eq!(r.confidence_adjustment, 1_000_000);
    assert_eq!(r.adjusted_price, None);
}

fn seeded() -> PriceValidator {
    let mut v = PriceValidator::new();
    let seed = vec![q(100 * PRICE_SCALE, 800_000), q(110 * PRICE_SCALE, 800_000), q(90 * PRICE_SCALE, 800_000)];
    assert_eq!(v.validate_prices(&seed).unwrap().len(), 3);
    v
}

#[test]
fn large_movement_is_accepted_with_reduced_confidence() {
    let mut v = seeded();
    let r = v.validate_single_price(&q(200 * PRICE_SCALE, 800_000));
    assert!(r.is_valid);
    assert_eq!(r.reason, Some(ValidationReason::LargePriceMovement { move_hundredths_percent: 10_000 }));
    assert_eq!(r.confidence_adjustment, 700_000);
    let out = v.validate_prices(&[q(200 * PRICE_SCALE, 800_000)]).unwrap();
    assert_eq!(out[0].confidence, 560_000);
    assert_eq!(out[0].price, 200 * PRICE_SCALE);
}

#[test]
fn suspiciously_small_movement_is_flagged() {
    let mut v = seeded();
    // A low own confidence does not matter once a historical flag decides.
    let out = v.validate_prices(&[q(100_050_000, 50_000)]).unwrap();
    assert_eq!(out.len(), 1);
    assert_eq!(out[0].confidence, 40_000);
    let r = seeded().validate_single_price(&q(100_050_000, 900_000));
    assert_eq!(r.reason, Some(ValidationReason::SuspiciouslySmallMovement));
    assert_eq!(r.confidence_adjustment, 800_000);
}

#[test]
fn verdict_is_repeatable_without_history_change() {
    let v = seeded();
    let quote = q(200 * PRICE_SCALE, 800_000);
    assert_eq!(v.validate_single_price(&quote), v.validate_single_price(&quote));
}

#[test]
fn rejected_quotes_do_not_enter_history() {
    let mut v = PriceValidator::new();
    let batch = vec![q(0, 900_000), q(100 * PRICE_SCALE, 900_000), q(-1, 900_000)];
    let out = v.validate_prices(&batch).unwrap();
    assert_eq!(out.len(), 1);
    assert_eq!(out[0].price, 100 * PRICE_SCALE);
}

#[test]
fn history_evicts_oldest_beyond_capacity() {
    let mut h = AssetHistory::new("BTC".to_string(), 3);
    for p in 1..=5 {
        h.push(p * PRICE_SCALE);
        assert!(h.len() <= 3);
    }
    assert_eq!(h.prices(), &[3 * PRICE_SCALE, 4 * PRICE_SCALE, 5 * PRICE_SCALE]);
    assert_eq!(h.capacity(), 3);
    assert_eq!(h.asset(), "BTC");
}

#[test]
fn zero_capacity_history_stays_empty() {
    let mut h = AssetHistory::new("BTC".to_string(), 0);
    h.push(7);
    assert_eq!(h.len(), 0);
}

#[test]
fn validator_history_is_bounded() {
    let mut v = PriceValidator::with_capacity(2);
    for _ in 0..5 {
        v.validate_prices(&[q(100 * PRICE_SCALE, 900_000)]).unwrap();
    }
    // With a capacity of two the historical checks never start.
    let r = v.validate_single_price(&q(900 * PRICE_SCALE, 900_000));
    assert_eq!(r.reason, None);
}

#[test]
fn statistics_of_history() {
    let mut v = PriceValidator::new();
    assert!(v.get_price_statistics(&"ETH".to_string()).is_none());
    let seed = vec![q(100 * PRICE_SCALE, 800_000), q(110 * PRICE_SCALE, 800_000), q(90 * PRICE_SCALE, 800_000)];
    v.validate_prices(&seed).unwrap();
    let st = v.get_price_statistics(&"ETH".to_string()).unwrap();
    assert_eq!(st.count, 3);
    assert_eq!(st.mean, 100 * PRICE_SCALE);
    assert_eq!(st.min, 90 * PRICE_SCALE);
    assert_eq!(st.max, 110 * PRICE_SCALE);
    // Variance 200 / 3 squared units.
    assert_eq!(st.variance, 66_666_666_666_666);
    assert_eq!(st.std_dev, 8_164_965);
    assert!(v.get_price_statistics(&"BTC".to_string()).is_none());
    let d = PriceStatistics::default();
    assert_eq!(d.count, 0);
    assert_eq!(d.variance, 0);
}

#[test]
fn integer_square_root() {
    assert_eq!(isqrt(0), 0);
    assert_eq!(isqrt(15), 3);
    assert_eq!(isqrt(16), 4);
    assert_eq!(isqrt(u128::MAX), u64::MAX as u128);
}
