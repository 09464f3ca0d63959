use stable_fun::instructions::update::{UpdateMetadataParams, UpdateSettingsParams};
use stable_fun::stablecoin::{StablecoinMint, StablecoinSettings};
use stable_fun::state::AccountId;
use stable_fun::vault::StablecoinVault;
use stable_fun::error::StableFunError;
use stable_fun::instructions::update::{update_metadata, UpdateError};

fn unique_id(n: u64) -> AccountId {
    AccountId::new(n, n.wrapping_mul(31), n.wrapping_add(7), 0xfeed)
}

#[test]
fn test_validate_name() {
    assert!(StablecoinMint::validate_name("USD Stablecoin").is_ok());
    assert!(StablecoinMint::validate_name("").is_err());
    assert!(StablecoinMint::validate_name(&"A".repeat(33)).is_err());
}

#[test]
fn test_validate_symbol() {
    assert!(StablecoinMint::validate_symbol("USDX").is_ok());
    assert!(StablecoinMint::validate_symbol("").is_err());
    assert!(StablecoinMint::validate_symbol(&"U".repeat(11)).is_err());
}

#[test]
fn fee_uses_a_wide_intermediate() {
    let mint = StablecoinMint {
        settings: StablecoinSettings {
            fee_basis_points: 4,
            ..Default::default()
        },
        ..Default::default()
    };
    // The product 2^63 * 4 leaves 64 bits, but the fee itself fits:
    // it floors to 3_689_348_814_741_910.
    assert_eq!(
        mint.calculate_fee(9_223_372_036_854_775_808),
        Ok(3_689_348_814_741_910)
    );
    let steep = StablecoinMint {
        settings: StablecoinSettings {
            fee_basis_points: 20000,
            ..Default::default()
        },
        ..Default::default()
    };
    // Only a fee that cannot narrow back to 64 bits is an overflow.
    assert_eq!(
        steep.calculate_fee(u64::MAX),
        Err(StableFunError::MathOverflow)
    );
}

#[test]
fn stablecoin_test_fee_calculation() {
    let mint = StablecoinMint {
        settings: StablecoinSettings {
            fee_basis_points: 30, // 0.3%
            ..Default::default()
        },
        ..Default::default()
    };

    assert_eq!(mint.calculate_fee(1000).unwrap(), 3); // 0.3% of 1000
    assert_eq!(mint.calculate_fee(10000).unwrap(), 30); // 0.3% of 10000
}

#[test]
fn test_vault_creation() {
    let vault = StablecoinVault::new(unique_id(1), unique_id(2), unique_id(3), 255);

    assert_eq!(vault.total_collateral, 0);
    assert_eq!(vault.current_ratio, 0);
    assert_eq!(vault.deposit_count, 0);
}

#[test]
fn test_collateral_ratio_calculation() {
    let mut vault = StablecoinVault::new(unique_id(1), unique_id(2), unique_id(3), 255);

    vault.total_collateral = 1000;
    vault.total_value_locked = 1500;

    assert!(vault.update_collateral_ratio().is_ok());
    assert_eq!(vault.current_ratio, 15000); // 150% = 15000 basis points
}

#[test]
fn test_withdrawal_validation() {
    let mut vault = StablecoinVault::new(unique_id(1), unique_id(2), unique_id(3), 255);

    vault.total_collateral = 1000;
    vault.total_value_locked = 1500;
    vault.update_collateral_ratio().unwrap();

    assert!(vault.can_withdraw(100, 14000)); // Should allow withdrawal maintaining 140% ratio
    assert!(!vault.can_withdraw(900, 14000)); // Should prevent withdrawal below 140% ratio
}

#[test]
fn test_update_settings() {
    // Test settings updates
    let mut test_mint = StablecoinMint {
        settings: StablecoinSettings {
            min_collateral_ratio: 15000,
            fee_basis_points: 30,
            max_supply: 1_000_000,
            mint_paused: false,
            redeem_paused: false,
        },
        ..Default::default()
    };

    let params = UpdateSettingsParams {
        min_collateral_ratio: Some(20000),
        fee_basis_points: Some(50),
        max_supply: Some(2_000_000),
        mint_paused: Some(true),
        redeem_paused: Some(true),
    };

    // Simulate update
    test_mint.settings.min_collateral_ratio = params.min_collateral_ratio.unwrap();
    test_mint.settings.fee_basis_points = params.fee_basis_points.unwrap();
    test_mint.settings.max_supply = params.max_supply.unwrap();
    test_mint.settings.mint_paused = params.mint_paused.unwrap();
    test_mint.settings.redeem_paused = params.redeem_paused.unwrap();

    assert_eq!(test_mint.settings.min_collateral_ratio, 20000);
    assert_eq!(test_mint.settings.fee_basis_points, 50);
    assert_eq!(test_mint.settings.max_supply, 2_000_000);
    assert_eq!(test_mint.settings.mint_paused, true);
    assert_eq!(test_mint.settings.redeem_paused, true);
}

#[test]
fn test_update_metadata() {
    // Test metadata updates
    let mut test_mint = StablecoinMint {
        name: "Old Name".to_string(),
        symbol: "OLD".to_string(),
        ..Default::default()
    };

    let params = UpdateMetadataParams {
        name: Some("New Name".to_string()),
        symbol: Some("NEW".to_string()),
        icon_uri: None,
    };

    // Simulate update
    if let Some(name) = params.name {
        test_mint.name = name;
    }
    if let Some(symbol) = params.symbol {
        test_mint.symbol = symbol;
    }

    assert_eq!(test_mint.name, "New Name");
    assert_eq!(test_mint.symbol, "NEW");
}

#[test]
fn update_settings_handler_applies_overrides() {
    let mut m = StablecoinMint {
        settings: StablecoinSettings {
            min_collateral_ratio: 15000,
            fee_basis_points: 30,
            max_supply: 1_000_000,
            mint_paused: false,
            redeem_paused: false,
        },
        current_supply: 500,
        ..Default::default()
    };
    let key = unique_id(11);
    let authority = unique_id(12);
    let params = UpdateSettingsParams {
        min_collateral_ratio: Some(20000),
        fee_basis_points: None,
        max_supply: Some(600),
        mint_paused: Some(true),
        redeem_paused: None,
    };
    let ev = stable_fun::update_settings(&mut m, params, key, authority, 999).unwrap();
    assert_eq!(m.settings.min_collateral_ratio, 20000);
    assert_eq!(m.settings.fee_basis_points, 30);
    assert_eq!(m.settings.max_supply, 600);
    assert_eq!(m.settings.mint_paused, true);
    assert_eq!(m.settings.redeem_paused, false);
    assert_eq!(m.last_updated, 999);
    assert_eq!(ev.old_settings.min_collateral_ratio, 15000);
    assert_eq!(ev.new_settings.min_collateral_ratio, 20000);
    assert_eq!(ev.timestamp, 999);
}

#[test]
fn update_settings_rejects_low_max_supply() {
    let mut m = StablecoinMint {
        current_supply: 1000,
        ..Default::default()
    };
    let params = UpdateSettingsParams {
        min_collateral_ratio: None,
        fee_basis_points: None,
        max_supply: Some(999),
        mint_paused: None,
        redeem_paused: None,
    };
    let before = m.clone();
    let r = stable_fun::update_settings(&mut m, params, unique_id(1), unique_id(2), 5);
    assert_eq!(r.unwrap_err(), StableFunError::InvalidMaxSupply);
    assert_eq!(m.current_supply, before.current_supply);
    assert_eq!(m.last_updated, before.last_updated);
}

#[test]
fn update_settings_rejects_ratio_under_floor() {
    let mut m = StablecoinMint::default();
    let params = UpdateSettingsParams {
        min_collateral_ratio: Some(9999),
        fee_basis_points: None,
        max_supply: None,
        mint_paused: None,
        redeem_paused: None,
    };
    let r = stable_fun::update_settings(&mut m, params, unique_id(1), unique_id(2), 5);
    assert_eq!(r.unwrap_err(), StableFunError::CollateralRatioTooLow);
}

#[test]
fn update_metadata_handler_bounds_fields() {
    let mut m = StablecoinMint {
        name: "Old Name".to_string(),
        symbol: "OLD".to_string(),
        ..Default::default()
    };
    let bad = UpdateMetadataParams {
        name: Some("A".repeat(33)),
        symbol: None,
        icon_uri: None,
    };
    assert_eq!(
        update_metadata(&mut m, bad, unique_id(1), unique_id(2), 9).unwrap_err(),
        UpdateError::InvalidName
    );
    assert_eq!(m.name, "Old Name");

    // The record's lower bounds hold on update too: two characters are not
    // enough for a name, one is not enough for a symbol.
    let short_name = UpdateMetadataParams {
        name: Some("Ab".to_string()),
        symbol: None,
        icon_uri: None,
    };
    assert_eq!(
        update_metadata(&mut m, short_name, unique_id(1), unique_id(2), 9).unwrap_err(),
        UpdateError::InvalidName
    );
    assert_eq!(m.name, "Old Name");

    let bad_symbol = UpdateMetadataParams {
        name: None,
        symbol: Some("".to_string()),
        icon_uri: None,
    };
    assert_eq!(
        update_metadata(&mut m, bad_symbol, unique_id(1), unique_id(2), 9).unwrap_err(),
        UpdateError::InvalidSymbol
    );

    let short_symbol = UpdateMetadataParams {
        name: None,
        symbol: Some("X".to_string()),
        icon_uri: None,
    };
    assert_eq!(
        update_metadata(&mut m, short_symbol, unique_id(1), unique_id(2), 9).unwrap_err(),
        UpdateError::InvalidSymbol
    );
    assert_eq!(m.symbol, "OLD");

    let good = UpdateMetadataParams {
        name: Some("New Name".to_string()),
        symbol: Some("NEW".to_string()),
        icon_uri: None,
    };
    let ev = update_metadata(&mut m, good, unique_id(1), unique_id(2), 9).unwrap();
    assert_eq!(m.name, "New Name");
    assert_eq!(m.symbol, "NEW");
    assert_eq!(m.last_updated, 9);
    assert_eq!(ev.name, "New Name");
    assert_eq!(ev.symbol, "NEW");
}

#[test]
fn update_stats_saturates_at_the_top() {
    let mut m = StablecoinMint::default();
    m.stats.total_minted = u64::MAX - 1;
    m.update_stats(Some(5), Some(7), Some(9));
    // An addition that would overflow keeps the old value.
    assert_eq!(m.stats.total_minted, u64::MAX - 1);
    assert_eq!(m.stats.total_burned, 7);
    assert_eq!(m.stats.total_fees, 9);
}

#[test]
fn record_pause_flags() {
    let mut m = StablecoinMint::default();
    assert!(!m.is_paused());
    assert!(!m.is_mint_paused());
    assert!(!m.is_redeem_paused());
    m.settings.mint_paused = true;
    assert!(m.is_paused());
    assert!(m.is_mint_paused());
    assert!(!m.is_redeem_paused());
}

#[test]
fn record_can_mint_respects_cap() {
    let mut m = StablecoinMint::default();
    m.settings.max_supply = 1000;
    m.current_supply = 990;
    assert!(m.can_mint(10));
    assert!(!m.can_mint(11));
    m.settings.mint_paused = true;
    assert!(!m.can_mint(1));
}
