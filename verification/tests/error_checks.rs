use stable_fun::error::StableFunError;

#[test]
fn test_name_length_validation() {
    assert!(StableFunError::check_name_length("ABC").is_ok());
    assert!(StableFunError::check_name_length("AB").is_err());
}

#[test]
fn test_symbol_length_validation() {
    assert!(StableFunError::check_symbol_length("ABC").is_ok());
    assert!(StableFunError::check_symbol_length("A").is_err());
}

#[test]
fn error_test_amount_validation() {
    assert!(StableFunError::check_amount(500, 100, 1000).is_ok());
    assert!(StableFunError::check_amount(50, 100, 1000).is_err());
    assert!(StableFunError::check_amount(1500, 100, 1000).is_err());
}

#[test]
fn error_test_collateral_ratio_validation() {
    assert!(StableFunError::check_collateral_ratio(150, 100, 200).is_ok());
    assert!(StableFunError::check_collateral_ratio(90, 100, 200).is_err());
    assert!(StableFunError::check_collateral_ratio(250, 100, 200).is_err());
}

#[test]
fn error_variants_from_checks() {
    assert_eq!(
        StableFunError::check_name_length("AB"),
        Err(StableFunError::NameTooShort)
    );
    assert_eq!(
        StableFunError::check_symbol_length("A"),
        Err(StableFunError::SymbolTooShort)
    );
    assert_eq!(
        StableFunError::check_amount(50, 100, 1000),
        Err(StableFunError::AmountTooSmall)
    );
    assert_eq!(
        StableFunError::check_amount(1500, 100, 1000),
        Err(StableFunError::AmountTooLarge)
    );
    assert_eq!(
        StableFunError::check_collateral_ratio(90, 100, 200),
        Err(StableFunError::CollateralRatioTooLow)
    );
    assert_eq!(
        StableFunError::check_collateral_ratio(250, 100, 200),
        Err(StableFunError::CollateralRatioTooHigh)
    );
    assert_eq!(StableFunError::check_vault_balance(0), Err(StableFunError::EmptyVault));
    assert_eq!(StableFunError::check_vault_balance(7), Ok(()));
    assert_eq!(
        StableFunError::check_oracle_price(0, 300, 1_000_000),
        Err(StableFunError::InvalidOraclePrice)
    );
    assert_eq!(
        StableFunError::check_oracle_price(5, -1, 1_000_000),
        Err(StableFunError::StaleOraclePrice)
    );
    assert_eq!(StableFunError::check_oracle_price(5, 300, 1_000_000), Ok(()));
}

#[test]
fn error_token_owner_check() {
    let a = stable_fun::state::AccountId::new(1, 2, 3, 4);
    let b = stable_fun::state::AccountId::new(1, 2, 3, 5);
    assert_eq!(StableFunError::check_token_owner(&a, &a), Ok(()));
    assert_eq!(
        StableFunError::check_token_owner(&a, &b),
        Err(StableFunError::InvalidTokenOwner)
    );
}
