//! Overflow-checked arithmetic over unsigned 64-bit quantities. Every
//! operation that could overflow or divide by zero returns a typed
//! `MathOverflow` failure instead of wrapping or panicking.

use vstd::prelude::*;
use crate::error::StableFunError;
use crate::oracle::{lemma_pow10_positive, pow10, pow10_u64};

verus! {

/// What converting `amount` at `price` into token units yields:
/// `amount * price / 10^decimals`, or `MathOverflow` when the product leaves
/// 64 bits or the scale divisor does.
pub open spec fn token_value_spec(amount: u64, price: u64, decimals: u8) -> Result<
    u64,
    StableFunError,
> {
    if amount * price > u64::MAX {
        Err(StableFunError::MathOverflow)
    } else if pow10(decimals as nat) > u64::MAX {
        Err(StableFunError::MathOverflow)
    } else {
        Ok((amount * price / pow10(decimals as nat)) as u64)
    }
}

/// Multiplies two amounts, failing with `MathOverflow` when the product does
/// not fit in 64 bits.
pub fn checked_mul(a: u64, b: u64) -> (r: Result<u64, StableFunError>)
    ensures
        a * b <= u64::MAX ==> r == Ok::<u64, StableFunError>((a * b) as u64),
        a * b > u64::MAX ==> r == Err::<u64, StableFunError>(StableFunError::MathOverflow),
{
    match a.checked_mul(b) {
        Some(v) => Ok(v),
        None => Err(StableFunError::MathOverflow),
    }
}

/// Divides `a` by `b`, failing with `MathOverflow` when `b` is zero.
pub fn checked_div(a: u64, b: u64) -> (r: Result<u64, StableFunError>)
    ensures
        b != 0 ==> r == Ok::<u64, StableFunError>((a as int / b as int) as u64),
        b == 0 ==> r == Err::<u64, StableFunError>(StableFunError::MathOverflow),
{
    match a.checked_div(b) {
        Some(v) => Ok(v),
        None => Err(StableFunError::MathOverflow),
    }
}

/// Converts `amount` into token units at `price` with `decimals` precision:
/// `amount * price / 10^decimals`, failing with `MathOverflow` when either
/// the wide product or the scale divisor leaves 64 bits.
pub fn calculate_token_amount(amount: u64, price: u64, decimals: u8) -> (r: Result<
    u64,
    StableFunError,
>)
    ensures
        r == token_value_spec(amount, price, decimals),
{
    let product = match amount.checked_mul(price) {
        Some(v) => v,
        None => return Err(StableFunError::MathOverflow),
    };
    match pow10_u64(decimals) {
        Some(divisor) => {
            proof {
                lemma_pow10_positive(decimals as nat);
            }
            Ok(product / divisor)
        },
        None => Err(StableFunError::MathOverflow),
    }
}

} // verus!
