//! The Mint transition: increase supply, lock collateral. The caller's
//! collateral moves into the vault and `amount` plus the fee is issued; all
//! preconditions are checked before any state is written.

use vstd::prelude::*;
use crate::error::StableFunError;
use crate::instructions::token_amount_spec;
use crate::oracle::{standardized, validate_price_spec, OraclePrice, OracleService};
use crate::stablecoin::{StablecoinMint, StablecoinStats};
use crate::state::AccountId;
use crate::vault::{cached_ratio_bps, StablecoinVault};

verus! {

/// What a successful mint asks of the external ledger and reports back.
#[derive(Clone, Copy, Debug, PartialEq, Eq, Structural)]
pub struct MintEvent {
    /// The issuance record minted against
    pub stablecoin_mint: AccountId,
    /// The caller receiving the issued units
    pub user: AccountId,
    /// Issued units requested, excluding the fee
    pub amount: u64,
    /// Fee charged on top of `amount`
    pub fee_amount: u64,
    /// Collateral units moved from the caller into the vault
    pub collateral_amount: u64,
    /// When the transition ran
    pub timestamp: i64,
}

/// The complete mint transition on the issuance record and its vault:
/// either every precondition holds and both records step together, or the
/// first failing check names the error and nothing changes. On success the
/// result carries the collateral to pull in and the fee charged.
///
/// The supply cap is checked against `amount` alone — that is the
/// transition's stated precondition — while the supply then grows by
/// `amount` plus the fee, so a successful mint may carry `current_supply`
/// past `max_supply` by up to the fee.
pub open spec fn spec_mint(
    m: StablecoinMint,
    v: StablecoinVault,
    amount: u64,
    price: OraclePrice,
    token_decimals: u8,
    now: i64,
) -> Result<(StablecoinMint, StablecoinVault, u64, u64), StableFunError> {
    if m.settings.mint_paused {
        Err(StableFunError::MintingPaused)
    } else if amount == 0 {
        Err(StableFunError::InvalidAmount)
    } else if m.current_supply + amount > m.settings.max_supply {
        Err(StableFunError::MaxSupplyExceeded)
    } else {
        match validate_price_spec(price, None, now) {
            Err(e) => Err(e),
            Ok(u) => match standardized(price.value, price.decimals) {
                Err(e) => Err(e),
                Ok(px) => match token_amount_spec(amount, px, token_decimals) {
                    Err(pe) => Err(StableFunError::MathOverflow),
                    Ok(collateral_amount) => {
                        let fee = amount * m.settings.fee_basis_points / 10000;
                        if fee > u64::MAX {
                            Err(StableFunError::MathOverflow)
                        } else if amount + fee > u64::MAX {
                            Err(StableFunError::MathOverflow)
                        } else if v.total_collateral + collateral_amount > u64::MAX
                            || v.total_value_locked + amount > u64::MAX || v.deposit_count + 1
                            > u32::MAX || cached_ratio_bps(
                            (v.total_value_locked + amount) as u64,
                            (v.total_collateral + collateral_amount) as u64,
                        ) > u16::MAX || m.current_supply + amount + fee > u64::MAX
                            || m.stats.total_minted + amount > u64::MAX || m.stats.total_fees + fee
                            > u64::MAX {
                            Err(StableFunError::MathOverflow)
                        } else {
                            Ok(
                                (
                                    StablecoinMint {
                                        current_supply: (m.current_supply + amount + fee) as u64,
                                        stats: StablecoinStats {
                                            total_minted: (m.stats.total_minted + amount) as u64,
                                            total_fees: (m.stats.total_fees + fee) as u64,
                                            ..m.stats
                                        },
                                        last_updated: now,
                                        ..m
                                    },
                                    StablecoinVault {
                                        total_collateral: (v.total_collateral
                                            + collateral_amount) as u64,
                                        total_value_locked: (v.total_value_locked + amount) as u64,
                                        current_ratio: cached_ratio_bps(
                                            (v.total_value_locked + amount) as u64,
                                            (v.total_collateral + collateral_amount) as u64,
                                        ) as u16,
                                        last_deposit_time: now,
                                        deposit_count: (v.deposit_count + 1) as u32,
                                        ..v
                                    },
                                    collateral_amount,
                                    fee as u64,
                                ),
                            )
                        }
                    },
                },
            },
        }
    }
}

/// Runs the Mint transition at time `now` on behalf of `user`, against the
/// given oracle sample and the issued token's `token_decimals`. On success
/// the returned event names the collateral to transfer into the vault and
/// the total of `amount` plus fee to issue; on failure both records are
/// exactly as they were.
pub fn handler(
    stablecoin_mint: &mut StablecoinMint,
    vault: &mut StablecoinVault,
    amount: u64,
    oracle_price: &OraclePrice,
    token_decimals: u8,
    user: AccountId,
    now: i64,
) -> (r: Result<MintEvent, StableFunError>)
    ensures
        match spec_mint(
            *old(stablecoin_mint),
            *old(vault),
            amount,
            *oracle_price,
            token_decimals,
            now,
        ) {
            Ok((m2, v2, collateral_amount, fee_amount)) => {
                &&& r == Ok::<MintEvent, StableFunError>(
                    MintEvent {
                        stablecoin_mint: old(vault).stablecoin_mint,
                        user,
                        amount,
                        fee_amount,
                        collateral_amount,
                        timestamp: now,
                    },
                )
                &&& *final (stablecoin_mint) == m2
                &&& *final (vault) == v2
            },
            Err(e) => {
                &&& r == Err::<MintEvent, StableFunError>(e)
                &&& *final (stablecoin_mint) == *old(stablecoin_mint)
                &&& *final (vault) == *old(vault)
            },
        },
        old(stablecoin_mint).settings.mint_paused ==> r == Err::<MintEvent, StableFunError>(
            StableFunError::MintingPaused,
        ) && *final (stablecoin_mint) == *old(stablecoin_mint) && *final (vault) == *old(vault),
        final (stablecoin_mint).stats.total_fees >= old(stablecoin_mint).stats.total_fees,
        final (stablecoin_mint).stats.total_minted >= old(stablecoin_mint).stats.total_minted,
        final (stablecoin_mint).stats.total_burned == old(stablecoin_mint).stats.total_burned,
{
    if stablecoin_mint.settings.mint_paused {
        return Err(StableFunError::MintingPaused);
    }
    if amount == 0 {
        return Err(StableFunError::InvalidAmount);
    }
    match stablecoin_mint.current_supply.checked_add(amount) {
        Some(s) => if s > stablecoin_mint.settings.max_supply {
            return Err(StableFunError::MaxSupplyExceeded);
        },
        None => return Err(StableFunError::MaxSupplyExceeded),
    }
    let oracle_value = match OracleService::verify_oracle_price(oracle_price, now) {
        Ok(v) => v,
        Err(e) => return Err(e),
    };
    let collateral_amount = match crate::instructions::calculate_token_amount(
        amount,
        oracle_value,
        token_decimals,
    ) {
        Ok(v) => v,
        Err(e) => return Err(StableFunError::MathOverflow),
    };
    let fee_amount = match stablecoin_mint.calculate_fee(amount) {
        Ok(v) => v,
        Err(e) => return Err(e),
    };
    let total_amount = match amount.checked_add(fee_amount) {
        Some(v) => v,
        None => return Err(StableFunError::MathOverflow),
    };
    let new_supply = match stablecoin_mint.current_supply.checked_add(total_amount) {
        Some(v) => v,
        None => return Err(StableFunError::MathOverflow),
    };
    let new_minted = match stablecoin_mint.stats.total_minted.checked_add(amount) {
        Some(v) => v,
        None => return Err(StableFunError::MathOverflow),
    };
    let new_fees = match stablecoin_mint.stats.total_fees.checked_add(fee_amount) {
        Some(v) => v,
        None => return Err(StableFunError::MathOverflow),
    };
    match vault.process_deposit(collateral_amount, amount, now) {
        Ok(u) => (),
        Err(e) => return Err(e),
    }
    stablecoin_mint.current_supply = new_supply;
    stablecoin_mint.stats.total_minted = new_minted;
    stablecoin_mint.stats.total_fees = new_fees;
    stablecoin_mint.last_updated = now;
    Ok(
        MintEvent {
            stablecoin_mint: vault.stablecoin_mint,
            user,
            amount,
            fee_amount,
            collateral_amount,
            timestamp: now,
        },
    )
}

} // verus!
