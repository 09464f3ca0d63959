use stable_fun::error::StableFunError;
use stable_fun::oracle::{OraclePrice, OracleService};

#[test]
fn test_price_standardization() {
    let price = OraclePrice::new(1_000_000_000, 9, 0, 0);
    assert_eq!(price.standardize().unwrap(), 1_000_000);

    let price = OraclePrice::new(1_000, 3, 0, 0);
    assert_eq!(price.standardize().unwrap(), 1_000_000);
}

#[test]
fn test_price_staleness() {
    let price = OraclePrice::new(1_000_000, 6, 1000, 0);
    assert!(price.is_stale(1500));
    assert!(!price.is_stale(1200));
}

#[test]
fn test_safe_price_calculation() {
    let price = OraclePrice::new(1_000_000, 6, 0, 1000);
    assert_eq!(OracleService::calculate_safe_price(&price, true).unwrap(), 1_001_000);
    assert_eq!(OracleService::calculate_safe_price(&price, false).unwrap(), 999_000);
}

#[test]
fn standardization_overflow_is_reported() {
    // Rescaling up cannot fit: value * 10^4 leaves 64 bits.
    let price = OraclePrice::new(u64::MAX / 2, 2, 0, 0);
    assert_eq!(price.standardize().unwrap_err(), StableFunError::MathOverflow);
    // A scale difference beyond any 64-bit power of ten cannot fit either.
    let price = OraclePrice::new(1, 40, 0, 0);
    assert_eq!(price.standardize().unwrap_err(), StableFunError::MathOverflow);
}

#[test]
fn validate_price_rejects_each_fault() {
    let now = 10_000;
    let zero = OraclePrice::new(0, 6, now, 0);
    assert_eq!(
        OracleService::validate_price(&zero, None, now).unwrap_err(),
        StableFunError::InvalidOraclePrice
    );
    let stale = OraclePrice::new(5, 6, now - 301, 0);
    assert_eq!(
        OracleService::validate_price(&stale, None, now).unwrap_err(),
        StableFunError::StaleOraclePrice
    );
    let wide = OraclePrice::new(5, 6, now, 100_001);
    assert_eq!(
        OracleService::validate_price(&wide, None, now).unwrap_err(),
        StableFunError::InvalidOraclePrice
    );
    let tight = OraclePrice::new(5, 6, now, 50);
    assert_eq!(OracleService::validate_price(&tight, Some(49), now).unwrap_err(),
        StableFunError::InvalidOraclePrice);
    let fine = OraclePrice::new(5, 6, now, 100_000);
    assert_eq!(OracleService::validate_price(&fine, None, now), Ok(()));
}

#[test]
fn median_drops_invalid_and_picks_middle() {
    let now = 50_000;
    let a = OraclePrice::new(3_000_000, 6, now, 0);
    let b = OraclePrice::new(1_000_000, 6, now, 0);
    let c = OraclePrice::new(2_000_000, 6, now, 0);
    let median = OracleService::get_median_price(&vec![a, b, c], now).unwrap();
    assert_eq!(median.value, 2_000_000);

    // A stale sample is silently dropped; two remain, the larger is taken.
    let stale = OraclePrice::new(9_000_000, 6, now - 9999, 0);
    let median = OracleService::get_median_price(&vec![stale, b, c], now).unwrap();
    assert_eq!(median.value, 2_000_000);

    // A single valid sample is the median.
    let median = OracleService::get_median_price(&vec![stale, stale, c], now).unwrap();
    assert_eq!(median.value, 2_000_000);
}

#[test]
fn median_rejects_bad_sample_counts() {
    let now = 50_000;
    let p = OraclePrice::new(1_000_000, 6, now, 0);
    assert_eq!(
        OracleService::get_median_price(&vec![], now).unwrap_err(),
        StableFunError::InvalidOracle
    );
    assert_eq!(
        OracleService::get_median_price(&vec![p, p, p, p], now).unwrap_err(),
        StableFunError::InvalidOracle
    );
    let stale = OraclePrice::new(9_000_000, 6, now - 9999, 0);
    assert_eq!(
        OracleService::get_median_price(&vec![stale, stale], now).unwrap_err(),
        StableFunError::InvalidOraclePrice
    );
}

#[test]
fn aggregate_price_is_median_with_confidence() {
    let now = 50_000;
    let a = OraclePrice::new(3_000_000, 6, now, 500);
    let b = OraclePrice::new(1_000_000, 6, now, 500);
    let c = OraclePrice::new(2_000_000, 6, now, 500);
    let prices = vec![a, b, c];
    assert_eq!(OracleService::aggregate_price(&prices, true, now).unwrap(), 2_000_500);
    assert_eq!(OracleService::aggregate_price(&prices, false, now).unwrap(), 1_999_500);
}

#[test]
fn verify_oracle_price_standardizes_valid_samples() {
    let now = 7_000;
    let p = OraclePrice::new(4_200_000_000, 9, now, 0);
    assert_eq!(OracleService::verify_oracle_price(&p, now).unwrap(), 4_200_000);
    let stale = OraclePrice::new(4_200_000_000, 9, now - 301, 0);
    assert_eq!(
        OracleService::verify_oracle_price(&stale, now).unwrap_err(),
        StableFunError::StaleOraclePrice
    );
}
