//! The transition handlers — Initialize, Mint, Redeem, UpdateSettings,
//! UpdateMetadata — and the helpers they share. Every handler validates all
//! of its preconditions before it writes anything: no partial mutation is
//! ever observable.

use vstd::prelude::*;
use crate::error::StableFunError;
use crate::oracle::{lemma_pow10_positive, pow10, pow10_u64};

pub mod initialize;
pub mod mint;
pub mod redeem;
pub mod update;

verus! {

// Constants for validation
pub const MIN_NAME_LENGTH: usize = 3;
pub const MIN_SYMBOL_LENGTH: usize = 2;
pub const BASIS_POINTS_DIVISOR: u16 = 10000;
pub const DEFAULT_COLLATERAL_RATIO: u16 = 15000; // 150%
pub const MIN_COLLATERAL_RATIO: u16 = 10000; // 100%

/// Failures of the shared transition helpers.
#[derive(Clone, Copy, Debug, PartialEq, Eq, Structural)]
pub enum ProgramError {
    InvalidOraclePrice,
    StaleOraclePrice,
    MathOverflow,
    InsufficientCollateral,
}

/// Accepts a feed result that is positive and at most five minutes old,
/// handing back the mantissa narrowed to 64 bits.
pub fn verify_oracle_price(mantissa: i128, round_open_timestamp: i64, now: i64) -> (r: Result<
    u64,
    StableFunError,
>)
    ensures
        mantissa <= 0 ==> r == Err::<u64, StableFunError>(StableFunError::InvalidOraclePrice),
        mantissa > 0 && now - round_open_timestamp > 300 ==> r == Err::<u64, StableFunError>(
            StableFunError::StaleOraclePrice,
        ),
        mantissa > 0 && now - round_open_timestamp <= 300 ==> r == Ok::<u64, StableFunError>(
            mantissa as u64,
        ),
{
    crate::switchboard::get_validated_price(mantissa, round_open_timestamp, 300, now)
}

/// What converting `amount` issued units at `price` yields in collateral
/// units: `amount * 10^decimals / price`, or `MathOverflow` when the scale
/// or the wide product leaves 64 bits or `price` is zero.
pub open spec fn token_amount_spec(amount: u64, price: u64, decimals: u8) -> Result<
    u64,
    ProgramError,
> {
    if pow10(decimals as nat) > u64::MAX {
        Err(ProgramError::MathOverflow)
    } else if amount * pow10(decimals as nat) > u64::MAX {
        Err(ProgramError::MathOverflow)
    } else if price == 0 {
        Err(ProgramError::MathOverflow)
    } else {
        Ok((amount * pow10(decimals as nat) / price as int) as u64)
    }
}

/// Converts `amount` issued units into collateral units at `price`:
/// `amount * 10^decimals / price`.
pub fn calculate_token_amount(amount: u64, price: u64, decimals: u8) -> (r: Result<
    u64,
    ProgramError,
>)
    ensures
        r == token_amount_spec(amount, price, decimals),
{
    let scale = match pow10_u64(decimals) {
        Some(v) => v,
        None => return Err(ProgramError::MathOverflow),
    };
    proof {
        lemma_pow10_positive(decimals as nat);
    }
    let product = match amount.checked_mul(scale) {
        Some(v) => v,
        None => return Err(ProgramError::MathOverflow),
    };
    match product.checked_div(price) {
        Some(v) => Ok(v),
        None => Err(ProgramError::MathOverflow),
    }
}

/// Checks that locked value stays at or above `min_ratio` basis points of
/// the collateral amount, computing the ratio in 64 bits as
/// `collateral_value * 10000 / collateral_amount`.
pub fn validate_collateral_ratio(
    collateral_amount: u64,
    collateral_value: u64,
    min_ratio: u16,
) -> (r: Result<(), ProgramError>)
    ensures
        collateral_value * BASIS_POINTS_DIVISOR > u64::MAX ==> r == Err::<(), ProgramError>(
            ProgramError::MathOverflow,
        ),
        collateral_value * BASIS_POINTS_DIVISOR <= u64::MAX && collateral_amount == 0 ==> r
            == Err::<(), ProgramError>(ProgramError::MathOverflow),
        collateral_value * BASIS_POINTS_DIVISOR <= u64::MAX && collateral_amount > 0 ==> r == (
        if collateral_value * BASIS_POINTS_DIVISOR / collateral_amount as int >= min_ratio {
            Ok::<(), ProgramError>(())
        } else {
            Err::<(), ProgramError>(ProgramError::InsufficientCollateral)
        }),
{
    let scaled = match collateral_value.checked_mul(BASIS_POINTS_DIVISOR as u64) {
        Some(v) => v,
        None => return Err(ProgramError::MathOverflow),
    };
    let ratio = match scaled.checked_div(collateral_amount) {
        Some(v) => v,
        None => return Err(ProgramError::MathOverflow),
    };
    if ratio >= min_ratio as u64 {
        Ok(())
    } else {
        Err(ProgramError::InsufficientCollateral)
    }
}

} // verus!
