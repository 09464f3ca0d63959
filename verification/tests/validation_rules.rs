use stable_fun::error::StableFunError;
use stable_fun::oracle::OraclePrice;
use stable_fun::stablecoin::{StablecoinMint, StablecoinSettings};
use stable_fun::state::AccountId;
use stable_fun::validation::{
    ValidationService, MAX_TRANSACTION_AMOUNT, MIN_TRANSACTION_AMOUNT,
};
use stable_fun::vault::StablecoinVault;

fn unique_id(n: u64) -> AccountId {
    AccountId::new(n, n ^ 0xabcd, n.rotate_left(13), 77)
}

#[test]
fn validation_test_amount_validation() {
    assert!(ValidationService::validate_amount(MIN_TRANSACTION_AMOUNT).is_ok());
    assert!(ValidationService::validate_amount(MIN_TRANSACTION_AMOUNT - 1).is_err());
    assert!(ValidationService::validate_amount(MAX_TRANSACTION_AMOUNT).is_ok());
    assert!(ValidationService::validate_amount(MAX_TRANSACTION_AMOUNT + 1).is_err());
}

#[test]
fn validation_test_collateral_ratio_validation() {
    assert!(ValidationService::validate_collateral_ratio(
        15000000, // 150% collateral
        10000000, // supply
        10000     // min ratio 100%
    )
    .is_ok());

    assert!(ValidationService::validate_collateral_ratio(
        9000000,  // 90% collateral
        10000000, // supply
        10000     // min ratio 100%
    )
    .is_err());
}

#[test]
fn test_metadata_validation() {
    assert!(ValidationService::validate_metadata("Test Coin", "TEST", "USD").is_ok());

    assert!(ValidationService::validate_metadata(
        "Te", // Too short
        "TEST", "USD"
    )
    .is_err());

    assert!(ValidationService::validate_metadata(
        "Test Coin", "T", // Too short
        "USD"
    )
    .is_err());
}

#[test]
fn test_fee_validation() {
    assert!(ValidationService::validate_fee(500).is_ok()); // 5%
    assert!(ValidationService::validate_fee(1100).is_err()); // 11%
}

#[test]
fn validation_error_variants() {
    assert_eq!(
        ValidationService::validate_amount(999),
        Err(StableFunError::AmountTooSmall)
    );
    assert_eq!(
        ValidationService::validate_amount(1_000_000_000_001),
        Err(StableFunError::AmountTooLarge)
    );
    assert_eq!(
        ValidationService::validate_fee(1001),
        Err(StableFunError::FeeTooHigh)
    );
    assert_eq!(
        ValidationService::validate_metadata("Test Coin", "TEST", ""),
        Err(StableFunError::InvalidCurrency)
    );
    // Zero supply needs no backing at all.
    assert_eq!(ValidationService::validate_collateral_ratio(0, 0, 30000), Ok(()));
}

#[test]
fn validation_token_accounts_and_vault_state() {
    let mint = unique_id(1);
    let owner = unique_id(2);
    let other = unique_id(3);
    assert_eq!(
        ValidationService::validate_token_accounts(mint, mint, owner, owner),
        Ok(())
    );
    assert_eq!(
        ValidationService::validate_token_accounts(mint, other, owner, owner),
        Err(StableFunError::InvalidTokenAccount)
    );
    assert_eq!(
        ValidationService::validate_token_accounts(mint, mint, other, owner),
        Err(StableFunError::InvalidTokenAccount)
    );

    let key = unique_id(9);
    let mut vault = StablecoinVault::new(key, owner, unique_id(4), 7);
    assert_eq!(
        ValidationService::validate_vault_state(&vault, key),
        Err(StableFunError::InvalidVault) // empty vault
    );
    vault.total_collateral = 5;
    assert_eq!(ValidationService::validate_vault_state(&vault, key), Ok(()));
    assert_eq!(
        ValidationService::validate_vault_state(&vault, unique_id(10)),
        Err(StableFunError::InvalidVault)
    );
}

#[test]
fn validation_update_collateral_ratio_matches_vault() {
    let mut vault = StablecoinVault::new(unique_id(1), unique_id(2), unique_id(3), 1);
    vault.total_collateral = 1000;
    vault.total_value_locked = 1500;
    assert!(ValidationService::update_collateral_ratio(&mut vault).is_ok());
    assert_eq!(vault.current_ratio, 15000);
}

fn mint_record(supply: u64, max_supply: u64, min_ratio: u16, paused: bool) -> StablecoinMint {
    StablecoinMint {
        current_supply: supply,
        settings: StablecoinSettings {
            fee_basis_points: 30,
            max_supply,
            min_collateral_ratio: min_ratio,
            mint_paused: paused,
            redeem_paused: false,
        },
        ..Default::default()
    }
}

#[test]
fn validate_mint_operation_checks_in_order() {
    let now_price = OraclePrice::new(1_000_000, 6, 0, 0);
    let paused = mint_record(0, u64::MAX, 10000, true);
    assert_eq!(
        ValidationService::validate_mint_operation(&paused, 5_000, &now_price, 10_000),
        Err(StableFunError::MintingPaused)
    );

    let m = mint_record(0, u64::MAX, 10000, false);
    assert_eq!(
        ValidationService::validate_mint_operation(&m, 1, &now_price, 10_000),
        Err(StableFunError::AmountTooSmall)
    );

    let capped = mint_record(999_999, 1_000_000, 10000, false);
    assert_eq!(
        ValidationService::validate_mint_operation(&capped, 5_000, &now_price, u64::MAX),
        Err(StableFunError::MaxSupplyExceeded)
    );

    let zero_price = OraclePrice::new(0, 6, 0, 0);
    assert_eq!(
        ValidationService::validate_mint_operation(&m, 5_000, &zero_price, u64::MAX),
        Err(StableFunError::InvalidOraclePrice)
    );

    // 4,000 collateral cannot back 5,000 new supply at a 100% floor.
    assert_eq!(
        ValidationService::validate_mint_operation(&m, 5_000, &now_price, 4_000),
        Err(StableFunError::CollateralRatioTooLow)
    );
    assert_eq!(
        ValidationService::validate_mint_operation(&m, 5_000, &now_price, 5_000),
        Ok(())
    );
}

#[test]
fn validate_redeem_operation_checks_in_order() {
    let mut m = mint_record(100_000, u64::MAX, 10000, false);
    let mut vault = StablecoinVault::new(unique_id(1), unique_id(2), unique_id(3), 1);
    vault.total_collateral = 150_000;

    m.settings.redeem_paused = true;
    assert_eq!(
        ValidationService::validate_redeem_operation(&m, &vault, 5_000, 10_000, 140_000),
        Err(StableFunError::RedeemingPaused)
    );
    m.settings.redeem_paused = false;

    assert_eq!(
        ValidationService::validate_redeem_operation(&m, &vault, 5_000, 4_999, 140_000),
        Err(StableFunError::InsufficientBalance)
    );

    // Burning more than the whole supply underflows.
    let small = mint_record(1_000, u64::MAX, 10000, false);
    assert_eq!(
        ValidationService::validate_redeem_operation(&small, &vault, 5_000, 10_000, 140_000),
        Err(StableFunError::MathOverflow)
    );

    // The remaining collateral must still back the remaining supply.
    assert_eq!(
        ValidationService::validate_redeem_operation(&m, &vault, 5_000, 10_000, 90_000),
        Err(StableFunError::CollateralRatioTooLow)
    );
    assert_eq!(
        ValidationService::validate_redeem_operation(&m, &vault, 5_000, 10_000, 95_000),
        Ok(())
    );
}
