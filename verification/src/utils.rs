//! Common helpers shared by the transition handlers: basis-point
//! percentages, account-owner checks, and the default staleness policy.

use vstd::prelude::*;
use crate::error::StableFunError;
use crate::state::AccountId;

verus! {

pub const PRICE_DECIMALS: u8 = 6;
pub const MAX_PRICE_STALENESS: i64 = 300; // 5 minutes
pub const BASIS_POINTS_DIVISOR: u16 = 10000;
pub const MINIMUM_LIQUIDITY: u64 = 1000;

/// The basis-point share of an amount: `amount * basis_points / 10000`,
/// computed with a 128-bit intermediate so that `MathOverflow` comes only
/// when the share itself does not fit in 64 bits.
pub fn calculate_percentage(amount: u64, basis_points: u16) -> (r: Result<u64, StableFunError>)
    ensures
        amount * basis_points / (BASIS_POINTS_DIVISOR as int) <= u64::MAX ==> r == Ok::<
            u64,
            StableFunError,
        >((amount * basis_points / (BASIS_POINTS_DIVISOR as int)) as u64),
        amount * basis_points / (BASIS_POINTS_DIVISOR as int) > u64::MAX ==> r == Err::<
            u64,
            StableFunError,
        >(StableFunError::MathOverflow),
{
    proof {
        vstd::arithmetic::mul::lemma_mul_upper_bound(
            amount as int,
            u64::MAX as int,
            basis_points as int,
            u16::MAX as int,
        );
    }
    let share: u128 = (amount as u128) * (basis_points as u128) / (BASIS_POINTS_DIVISOR as u128);
    if share > u64::MAX as u128 {
        Err(StableFunError::MathOverflow)
    } else {
        Ok(share as u64)
    }
}

/// Checks that an account is owned by the expected identity.
pub fn verify_account_owner(account_owner: AccountId, owner: AccountId) -> (r: Result<
    (),
    StableFunError,
>)
    ensures
        r == if account_owner == owner {
            Ok::<(), StableFunError>(())
        } else {
            Err::<(), StableFunError>(StableFunError::AccountOwnerMismatch)
        },
{
    if account_owner == owner {
        Ok(())
    } else {
        Err(StableFunError::AccountOwnerMismatch)
    }
}

/// Accepts a feed result that is positive and fresh under the default
/// staleness policy, handing back the mantissa narrowed to 64 bits.
pub fn get_validated_price(mantissa: i128, round_open_timestamp: i64, now: i64) -> (r: Result<
    u64,
    StableFunError,
>)
    ensures
        mantissa <= 0 ==> r == Err::<u64, StableFunError>(StableFunError::InvalidOraclePrice),
        mantissa > 0 && now - round_open_timestamp > MAX_PRICE_STALENESS ==> r == Err::<
            u64,
            StableFunError,
        >(StableFunError::StaleOraclePrice),
        mantissa > 0 && now - round_open_timestamp <= MAX_PRICE_STALENESS ==> r == Ok::<
            u64,
            StableFunError,
        >(mantissa as u64),
{
    crate::switchboard::get_validated_price(
        mantissa,
        round_open_timestamp,
        MAX_PRICE_STALENESS,
        now,
    )
}

/// Whether a sample produced at `last_update` is older than the default
/// staleness policy allows at time `now`.
pub fn is_price_stale(last_update: i64, now: i64) -> (r: bool)
    ensures
        r == (now - last_update > MAX_PRICE_STALENESS),
{
    let age: i128 = now as i128 - last_update as i128;
    age > MAX_PRICE_STALENESS as i128
}

} // verus!
