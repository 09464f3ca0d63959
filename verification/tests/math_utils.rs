use stable_fun::error::StableFunError;
use stable_fun::instructions::ProgramError;
use stable_fun::math;
use stable_fun::state::{AccountId, PriceData};
use stable_fun::switchboard;
use stable_fun::utils;
use stable_fun::instructions::{calculate_token_amount, validate_collateral_ratio, verify_oracle_price};

#[test]
fn test_percentage_calculation() {
    let amount = 1_000_000;
    let basis_points = 500; // 5%

    let result = utils::calculate_percentage(amount, basis_points).unwrap();
    assert_eq!(result, 50_000);
}

#[test]
fn checked_math_reports_overflow() {
    assert_eq!(math::checked_mul(3, 4), Ok(12));
    assert_eq!(math::checked_mul(u64::MAX, 2), Err(StableFunError::MathOverflow));
    assert_eq!(math::checked_div(12, 4), Ok(3));
    assert_eq!(math::checked_div(12, 0), Err(StableFunError::MathOverflow));
}

#[test]
fn percentage_uses_a_wide_intermediate() {
    // The product amount * bps leaves 64 bits, but the share itself fits:
    // (2^64 - 1) * 2 / 10000 floors to 3_689_348_814_741_910.
    assert_eq!(
        utils::calculate_percentage(u64::MAX, 2),
        Ok(3_689_348_814_741_910)
    );
    // Only a share that cannot narrow back to 64 bits is an overflow.
    assert_eq!(
        utils::calculate_percentage(u64::MAX, 20000),
        Err(StableFunError::MathOverflow)
    );
}

#[test]
fn math_token_amount_converts_by_price() {
    // 5 units at price 2.0 with 6 decimals: 5 * 2_000_000 / 10^6 = 10.
    assert_eq!(math::calculate_token_amount(5, 2_000_000, 6).unwrap(), 10);
    assert_eq!(
        math::calculate_token_amount(u64::MAX, 2, 6),
        Err(StableFunError::MathOverflow)
    );
    // A scale divisor beyond 64 bits cannot be formed.
    assert_eq!(
        math::calculate_token_amount(5, 1, 20),
        Err(StableFunError::MathOverflow)
    );
}

#[test]
fn instructions_token_amount_converts_by_scale() {
    // 10 issued units at price 2.0 with 6 decimals: 10 * 10^6 / 2_000_000 = 5.
    assert_eq!(calculate_token_amount(10, 2_000_000, 6).unwrap(), 5);
    assert_eq!(calculate_token_amount(10, 0, 6), Err(ProgramError::MathOverflow));
    assert_eq!(calculate_token_amount(u64::MAX, 7, 6), Err(ProgramError::MathOverflow));
}

#[test]
fn instructions_ratio_check() {
    assert_eq!(validate_collateral_ratio(1000, 1500, 14000), Ok(()));
    assert_eq!(
        validate_collateral_ratio(1000, 1500, 16000),
        Err(ProgramError::InsufficientCollateral)
    );
    assert_eq!(validate_collateral_ratio(0, 1500, 14000), Err(ProgramError::MathOverflow));
    assert_eq!(
        validate_collateral_ratio(1000, u64::MAX, 14000),
        Err(ProgramError::MathOverflow)
    );
}

#[test]
fn test_price_validation() {
    // The raw-feed gate: a positive fresh mantissa passes, the rest is named.
    assert_eq!(switchboard::get_validated_price(42, 100, 300, 200), Ok(42));
    assert_eq!(
        switchboard::get_validated_price(0, 100, 300, 200),
        Err(StableFunError::InvalidOraclePrice)
    );
    assert_eq!(
        switchboard::get_validated_price(42, 100, 300, 500),
        Err(StableFunError::StaleOraclePrice)
    );
}

#[test]
fn utils_price_helpers() {
    assert_eq!(utils::get_validated_price(42, 100, 200), Ok(42));
    assert_eq!(
        utils::get_validated_price(42, 100, 500),
        Err(StableFunError::StaleOraclePrice)
    );
    assert!(utils::is_price_stale(100, 500));
    assert!(!utils::is_price_stale(100, 300));
    assert_eq!(
        utils::verify_account_owner(AccountId::new(1, 2, 3, 4), AccountId::new(1, 2, 3, 4)),
        Ok(())
    );
    assert_eq!(
        utils::verify_account_owner(AccountId::new(1, 2, 3, 4), AccountId::new(9, 2, 3, 4)),
        Err(StableFunError::AccountOwnerMismatch)
    );
}

#[test]
fn price_data_validity() {
    let sample = PriceData::new(1_000_000, 500, 10);
    assert!(sample.is_valid(700, 300, 100));
    assert!(!sample.is_valid(900, 300, 100)); // too old
    assert!(!sample.is_valid(700, 300, 5)); // confidence too wide
    assert!(!PriceData::new(0, 500, 10).is_valid(700, 300, 100)); // non-positive
}

#[test]
fn instructions_verify_oracle_price_gate() {
    assert_eq!(verify_oracle_price(1_500_000, 1000, 1200), Ok(1_500_000));
    assert_eq!(
        verify_oracle_price(1_500_000, 1000, 1301),
        Err(StableFunError::StaleOraclePrice)
    );
    assert_eq!(
        verify_oracle_price(-5, 1000, 1200),
        Err(StableFunError::InvalidOraclePrice)
    );
}
