//! Collateralized-issuance engine: issuance records, collateral vaults,
//! oracle price validation, and the mint/redeem state transitions, with
//! machine-checked contracts for the arithmetic and solvency rules.
//!
//! The crate-root functions are the program entrypoints; each bounds its
//! inputs and then runs the matching transition handler. Account plumbing,
//! ledger calls and the clock belong to the hosting environment, which hands
//! every handler plain values and a single consistent snapshot of the
//! records.

use vstd::prelude::*;

pub mod constants;
pub mod error;
pub mod instructions;
pub mod laws;
pub mod math;
pub mod oracle;
pub mod stablebond;
pub mod stablecoin;
pub mod state;
pub mod switchboard;
pub mod utils;
pub mod validation;
pub mod vault;

use crate::constants::MIN_COLLATERAL_RATIO;
use crate::error::StableFunError;
use crate::instructions::initialize::{InitializeAccounts, StablecoinInitialized};
use crate::instructions::mint::{spec_mint, MintEvent};
use crate::instructions::redeem::{spec_redeem, RedeemEvent};
use crate::instructions::update::{settings_with, SettingsUpdateEvent, UpdateSettingsParams};
use crate::oracle::OraclePrice;
use crate::stablecoin::StablecoinMint;
use crate::state::AccountId;
use crate::vault::StablecoinVault;

verus! {

/// Creates a stablecoin: bounds the metadata, demands a positive first
/// sample from the price feed, and returns the fresh issuance record, its
/// vault, and the creation notification.
pub fn initialize(
    accounts: InitializeAccounts,
    name: String,
    symbol: String,
    target_currency: String,
    initial_supply: u64,
    oracle_mantissa: i128,
    now: i64,
) -> (r: Result<(StablecoinMint, StablecoinVault, StablecoinInitialized), StableFunError>)
    ensures
        crate::instructions::initialize::initialize_verdict(
            name@,
            symbol@,
            target_currency@,
            oracle_mantissa,
        ) matches Err(e) ==> r is Err && r->Err_0 == e,
        crate::instructions::initialize::initialize_verdict(
            name@,
            symbol@,
            target_currency@,
            oracle_mantissa,
        ) is Ok ==> r is Ok && ({
            let (m, v, ev) = r->Ok_0;
            &&& crate::instructions::initialize::initialized_mint_record(
                accounts,
                name@,
                symbol@,
                target_currency@,
                now,
                m,
            )
            &&& v == crate::instructions::initialize::initialized_vault_record(accounts, now)
            &&& ev.stablecoin_mint == accounts.stablecoin_mint
            &&& ev.authority == accounts.authority
            &&& ev.name@ == name@
            &&& ev.symbol@ == symbol@
            &&& ev.target_currency@ == target_currency@
        }),
{
    if name.unicode_len() < 3 {
        return Err(StableFunError::NameTooShort);
    }
    if symbol.unicode_len() < 2 {
        return Err(StableFunError::SymbolTooShort);
    }
    crate::instructions::initialize::handler(
        accounts,
        name,
        symbol,
        target_currency,
        initial_supply,
        oracle_mantissa,
        now,
    )
}

/// Mints `amount` issued units (plus fee) for `user` against the given
/// oracle sample, locking the matching collateral in the vault. A zero
/// amount is rejected before anything else is looked at.
pub fn mint(
    stablecoin_mint: &mut StablecoinMint,
    vault: &mut StablecoinVault,
    amount: u64,
    oracle_price: &OraclePrice,
    token_decimals: u8,
    user: AccountId,
    now: i64,
) -> (r: Result<MintEvent, StableFunError>)
    ensures
        amount == 0 ==> r == Err::<MintEvent, StableFunError>(StableFunError::InvalidAmount)
            && *final (stablecoin_mint) == *old(stablecoin_mint) && *final (vault) == *old(vault),
        amount > 0 ==> match spec_mint(
            *old(stablecoin_mint),
            *old(vault),
            amount,
            *oracle_price,
            token_decimals,
            now,
        ) {
            Ok((m2, v2, collateral_amount, fee_amount)) => {
                &&& r == Ok::<MintEvent, StableFunError>(
                    MintEvent {
                        stablecoin_mint: old(vault).stablecoin_mint,
                        user,
                        amount,
                        fee_amount,
                        collateral_amount,
                        timestamp: now,
                    },
                )
                &&& *final (stablecoin_mint) == m2
                &&& *final (vault) == v2
            },
            Err(e) => {
                &&& r == Err::<MintEvent, StableFunError>(e)
                &&& *final (stablecoin_mint) == *old(stablecoin_mint)
                &&& *final (vault) == *old(vault)
            },
        },
        final (stablecoin_mint).stats.total_fees >= old(stablecoin_mint).stats.total_fees,
{
    if amount == 0 {
        return Err(StableFunError::InvalidAmount);
    }
    crate::instructions::mint::handler(
        stablecoin_mint,
        vault,
        amount,
        oracle_price,
        token_decimals,
        user,
        now,
    )
}

/// Redeems `amount` issued units (plus fee burned) for `user`, releasing the
/// matching collateral, but only while the remaining pool stays solvent. A
/// zero amount is rejected before anything else is looked at.
pub fn redeem(
    stablecoin_mint: &mut StablecoinMint,
    vault: &mut StablecoinVault,
    amount: u64,
    token_balance: u64,
    oracle_price: &OraclePrice,
    token_decimals: u8,
    user: AccountId,
    now: i64,
) -> (r: Result<RedeemEvent, StableFunError>)
    ensures
        amount == 0 ==> r == Err::<RedeemEvent, StableFunError>(StableFunError::InvalidAmount)
            && *final (stablecoin_mint) == *old(stablecoin_mint) && *final (vault) == *old(vault),
        amount > 0 ==> match spec_redeem(
            *old(stablecoin_mint),
            *old(vault),
            amount,
            token_balance,
            *oracle_price,
            token_decimals,
            now,
        ) {
            Ok((m2, v2, collateral_amount, fee_amount)) => {
                &&& r == Ok::<RedeemEvent, StableFunError>(
                    RedeemEvent {
                        stablecoin_mint: old(vault).stablecoin_mint,
                        user,
                        amount,
                        fee_amount,
                        collateral_amount,
                        timestamp: now,
                    },
                )
                &&& *final (stablecoin_mint) == m2
                &&& *final (vault) == v2
            },
            Err(e) => {
                &&& r == Err::<RedeemEvent, StableFunError>(e)
                &&& *final (stablecoin_mint) == *old(stablecoin_mint)
                &&& *final (vault) == *old(vault)
            },
        },
        final (stablecoin_mint).stats.total_fees >= old(stablecoin_mint).stats.total_fees,
{
    if amount == 0 {
        return Err(StableFunError::InvalidAmount);
    }
    crate::instructions::redeem::handler(
        stablecoin_mint,
        vault,
        amount,
        token_balance,
        oracle_price,
        token_decimals,
        user,
        now,
    )
}

/// Updates an issuance record's settings on behalf of its vetted authority,
/// enforcing the floor on the minimum collateral ratio at this outer
/// boundary and the supply cap rule inside the handler.
pub fn update_settings(
    stablecoin_mint: &mut StablecoinMint,
    params: UpdateSettingsParams,
    stablecoin_key: AccountId,
    authority: AccountId,
    now: i64,
) -> (r: Result<SettingsUpdateEvent, StableFunError>)
    ensures
        (params.min_collateral_ratio matches Some(v) && v < MIN_COLLATERAL_RATIO) ==> r == Err::<
            SettingsUpdateEvent,
            StableFunError,
        >(StableFunError::CollateralRatioTooLow) && *final (stablecoin_mint) == *old(
            stablecoin_mint,
        ),
        !(params.min_collateral_ratio matches Some(v) && v < MIN_COLLATERAL_RATIO) && (
        params.max_supply matches Some(new_max) && new_max < old(stablecoin_mint).current_supply)
            ==> r == Err::<SettingsUpdateEvent, StableFunError>(StableFunError::InvalidMaxSupply)
            && *final (stablecoin_mint) == *old(stablecoin_mint),
        !(params.min_collateral_ratio matches Some(v) && v < MIN_COLLATERAL_RATIO) && !(
        params.max_supply matches Some(new_max) && new_max < old(stablecoin_mint).current_supply)
            ==> r == Ok::<SettingsUpdateEvent, StableFunError>(
            SettingsUpdateEvent {
                stablecoin_mint: stablecoin_key,
                authority,
                old_settings: old(stablecoin_mint).settings,
                new_settings: settings_with(old(stablecoin_mint).settings, params),
                timestamp: now,
            },
        ) && *final (stablecoin_mint) == (StablecoinMint {
            settings: settings_with(old(stablecoin_mint).settings, params),
            last_updated: now,
            ..*old(stablecoin_mint)
        }),
        final (stablecoin_mint).stats == old(stablecoin_mint).stats,
        final (stablecoin_mint).current_supply == old(stablecoin_mint).current_supply,
        final (stablecoin_mint).settings.min_collateral_ratio >= MIN_COLLATERAL_RATIO
            || final (stablecoin_mint).settings.min_collateral_ratio == old(
            stablecoin_mint,
        ).settings.min_collateral_ratio,
{
    let floor_ok = match params.min_collateral_ratio {
        Some(v) => v >= MIN_COLLATERAL_RATIO,
        None => true,
    };
    if !floor_ok {
        return Err(StableFunError::CollateralRatioTooLow);
    }
    crate::instructions::update::handler(stablecoin_mint, params, stablecoin_key, authority, now)
}

} // verus!
