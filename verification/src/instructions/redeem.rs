//! The Redeem transition: decrease supply, release collateral. The caller's
//! units plus the fee are burned and collateral moves back out of the vault,
//! but only while the remaining pool stays solvent; all preconditions are
//! checked before any state is written.

use vstd::prelude::*;
use crate::error::StableFunError;
use crate::instructions::token_amount_spec;
use crate::oracle::{standardized, validate_price_spec, OraclePrice, OracleService};
use crate::stablecoin::{StablecoinMint, StablecoinStats};
use crate::state::AccountId;
use crate::validation::{collateral_ratio_ok, validate_amount_spec, ValidationService};
use crate::vault::{cached_ratio_bps, StablecoinVault};

verus! {

/// What a successful redemption asks of the external ledger and reports
/// back.
#[derive(Clone, Copy, Debug, PartialEq, Eq, Structural)]
pub struct RedeemEvent {
    /// The issuance record redeemed against
    pub stablecoin_mint: AccountId,
    /// The caller surrendering issued units
    pub user: AccountId,
    /// Issued units redeemed, excluding the fee
    pub amount: u64,
    /// Fee burned on top of `amount`
    pub fee_amount: u64,
    /// Collateral units released from the vault to the caller
    pub collateral_amount: u64,
    /// When the transition ran
    pub timestamp: i64,
}

/// The complete redeem transition on the issuance record and its vault:
/// either every precondition holds — including the solvency gate on what
/// would remain — and both records step together, or the first failing
/// check names the error and nothing changes. On success the result carries
/// the collateral to release and the fee charged.
pub open spec fn spec_redeem(
    m: StablecoinMint,
    v: StablecoinVault,
    amount: u64,
    token_balance: u64,
    price: OraclePrice,
    token_decimals: u8,
    now: i64,
) -> Result<(StablecoinMint, StablecoinVault, u64, u64), StableFunError> {
    if m.settings.redeem_paused {
        Err(StableFunError::RedeemingPaused)
    } else if amount == 0 {
        Err(StableFunError::InvalidAmount)
    } else if token_balance < amount {
        Err(StableFunError::InsufficientBalance)
    } else {
        match validate_amount_spec(amount) {
            Err(e) => Err(e),
            Ok(u0) => match validate_price_spec(price, None, now) {
                Err(e) => Err(e),
                Ok(u1) => match standardized(price.value, price.decimals) {
                    Err(e) => Err(e),
                    Ok(px) => match token_amount_spec(amount, px, token_decimals) {
                        Err(pe) => Err(StableFunError::MathOverflow),
                        Ok(collateral_amount) => {
                            let fee = amount * m.settings.fee_basis_points / 10000;
                            if fee > u64::MAX {
                                Err(StableFunError::MathOverflow)
                            } else if amount + fee > u64::MAX {
                                Err(StableFunError::MathOverflow)
                            } else if v.total_collateral < collateral_amount {
                                Err(StableFunError::MathOverflow)
                            } else if m.current_supply < amount + fee {
                                Err(StableFunError::MathOverflow)
                            } else {
                                let remaining_collateral = (v.total_collateral
                                    - collateral_amount) as u64;
                                let remaining_supply = (m.current_supply - amount - fee) as u64;
                                if remaining_supply > 0 && !collateral_ratio_ok(
                                    remaining_collateral,
                                    remaining_supply,
                                    m.settings.min_collateral_ratio,
                                ) {
                                    Err(StableFunError::CollateralRatioTooLow)
                                } else if v.total_value_locked < amount || v.withdrawal_count + 1
                                    > u32::MAX || cached_ratio_bps(
                                    (v.total_value_locked - amount) as u64,
                                    remaining_collateral,
                                ) > u16::MAX || m.stats.total_burned + amount > u64::MAX
                                    || m.stats.total_fees + fee > u64::MAX {
                                    Err(StableFunError::MathOverflow)
                                } else {
                                    Ok(
                                        (
                                            StablecoinMint {
                                                current_supply: remaining_supply,
                                                stats: StablecoinStats {
                                                    total_burned: (m.stats.total_burned
                                                        + amount) as u64,
                                                    total_fees: (m.stats.total_fees + fee) as u64,
                                                    ..m.stats
                                                },
                                                last_updated: now,
                                                ..m
                                            },
                                            StablecoinVault {
                                                total_collateral: remaining_collateral,
                                                total_value_locked: (v.total_value_locked
                                                    - amount) as u64,
                                                current_ratio: cached_ratio_bps(
                                                    (v.total_value_locked - amount) as u64,
                                                    remaining_collateral,
                                                ) as u16,
                                                last_withdrawal_time: now,
                                                withdrawal_count: (v.withdrawal_count + 1) as u32,
                                                ..v
                                            },
                                            collateral_amount,
                                            fee as u64,
                                        ),
                                    )
                                }
                            }
                        },
                    },
                },
            },
        }
    }
}

/// Runs the Redeem transition at time `now` on behalf of `user`, whose
/// issued-token balance is `token_balance`, against the given oracle sample
/// and the issued token's `token_decimals`. On success the returned event
/// names the total of `amount` plus fee to burn and the collateral to
/// release; on failure both records are exactly as they were.
pub fn handler(
    stablecoin_mint: &mut StablecoinMint,
    vault: &mut StablecoinVault,
    amount: u64,
    token_balance: u64,
    oracle_price: &OraclePrice,
    token_decimals: u8,
    user: AccountId,
    now: i64,
) -> (r: Result<RedeemEvent, StableFunError>)
    ensures
        match spec_redeem(
            *old(stablecoin_mint),
            *old(vault),
            amount,
            token_balance,
            *oracle_price,
            token_decimals,
            now,
        ) {
            Ok((m2, v2, collateral_amount, fee_amount)) => {
                &&& r == Ok::<RedeemEvent, StableFunError>(
                    RedeemEvent {
                        stablecoin_mint: old(vault).stablecoin_mint,
                        user,
                        amount,
                        fee_amount,
                        collateral_amount,
                        timestamp: now,
                    },
                )
                &&& *final (stablecoin_mint) == m2
                &&& *final (vault) == v2
            },
            Err(e) => {
                &&& r == Err::<RedeemEvent, StableFunError>(e)
                &&& *final (stablecoin_mint) == *old(stablecoin_mint)
                &&& *final (vault) == *old(vault)
            },
        },
        old(stablecoin_mint).settings.redeem_paused ==> r == Err::<RedeemEvent, StableFunError>(
            StableFunError::RedeemingPaused,
        ) && *final (stablecoin_mint) == *old(stablecoin_mint) && *final (vault) == *old(vault),
        final (stablecoin_mint).stats.total_fees >= old(stablecoin_mint).stats.total_fees,
        final (stablecoin_mint).stats.total_burned >= old(stablecoin_mint).stats.total_burned,
        final (stablecoin_mint).stats.total_minted == old(stablecoin_mint).stats.total_minted,
        r is Ok && final (stablecoin_mint).current_supply > 0 ==> collateral_ratio_ok(
            final (vault).total_collateral,
            final (stablecoin_mint).current_supply,
            old(stablecoin_mint).settings.min_collateral_ratio,
        ),
{
    if stablecoin_mint.settings.redeem_paused {
        return Err(StableFunError::RedeemingPaused);
    }
    if amount == 0 {
        return Err(StableFunError::InvalidAmount);
    }
    if token_balance < amount {
        return Err(StableFunError::InsufficientBalance);
    }
    match ValidationService::validate_amount(amount) {
        Ok(u0) => (),
        Err(e) => return Err(e),
    }
    let oracle_value = match OracleService::verify_oracle_price(oracle_price, now) {
        Ok(v) => v,
        Err(e) => return Err(e),
    };
    let collateral_amount = match crate::instructions::calculate_token_amount(
        amount,
        oracle_value,
        token_decimals,
    ) {
        Ok(v) => v,
        Err(e) => return Err(StableFunError::MathOverflow),
    };
    let fee_amount = match stablecoin_mint.calculate_fee(amount) {
        Ok(v) => v,
        Err(e) => return Err(e),
    };
    let burn_amount = match amount.checked_add(fee_amount) {
        Some(v) => v,
        None => return Err(StableFunError::MathOverflow),
    };
    if vault.total_collateral < collateral_amount {
        return Err(StableFunError::MathOverflow);
    }
    let remaining_collateral = vault.total_collateral - collateral_amount;
    let remaining_supply = match stablecoin_mint.current_supply.checked_sub(burn_amount) {
        Some(v) => v,
        None => return Err(StableFunError::MathOverflow),
    };
    if remaining_supply > 0 {
        match ValidationService::validate_collateral_ratio(
            remaining_collateral,
            remaining_supply,
            stablecoin_mint.settings.min_collateral_ratio,
        ) {
            Ok(u1) => (),
            Err(e) => return Err(e),
        }
    }
    let new_burned = match stablecoin_mint.stats.total_burned.checked_add(amount) {
        Some(v) => v,
        None => return Err(StableFunError::MathOverflow),
    };
    let new_fees = match stablecoin_mint.stats.total_fees.checked_add(fee_amount) {
        Some(v) => v,
        None => return Err(StableFunError::MathOverflow),
    };
    match vault.process_withdrawal(collateral_amount, amount, now) {
        Ok(u2) => (),
        Err(e) => return Err(e),
    }
    stablecoin_mint.current_supply = remaining_supply;
    stablecoin_mint.stats.total_burned = new_burned;
    stablecoin_mint.stats.total_fees = new_fees;
    stablecoin_mint.last_updated = now;
    Ok(
        RedeemEvent {
            stablecoin_mint: vault.stablecoin_mint,
            user,
            amount,
            fee_amount,
            collateral_amount,
            timestamp: now,
        },
    )
}

} // verus!
