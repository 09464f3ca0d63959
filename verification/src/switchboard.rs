//! Gate for a raw feed result: a mantissa and round timestamp become a
//! trusted 64-bit price only while positive and fresh.

use vstd::prelude::*;
use crate::error::StableFunError;

verus! {

/// A validated price and the time of the round that produced it.
#[derive(Clone, Copy, Debug, PartialEq, Eq, Structural)]
pub struct PriceData {
    pub price: u64,
    pub timestamp: i64,
}

/// Accepts a feed result whose mantissa is positive and whose round opened
/// no more than `max_staleness` seconds before `now`, handing back the
/// mantissa narrowed to 64 bits.
pub fn get_validated_price(
    mantissa: i128,
    round_open_timestamp: i64,
    max_staleness: i64,
    now: i64,
) -> (r: Result<u64, StableFunError>)
    ensures
        mantissa <= 0 ==> r == Err::<u64, StableFunError>(StableFunError::InvalidOraclePrice),
        mantissa > 0 && now - round_open_timestamp > max_staleness ==> r == Err::<
            u64,
            StableFunError,
        >(StableFunError::StaleOraclePrice),
        mantissa > 0 && now - round_open_timestamp <= max_staleness ==> r == Ok::<
            u64,
            StableFunError,
        >(mantissa as u64),
{
    if mantissa <= 0 {
        return Err(StableFunError::InvalidOraclePrice);
    }
    let age: i128 = now as i128 - round_open_timestamp as i128;
    if age > max_staleness as i128 {
        return Err(StableFunError::StaleOraclePrice);
    }
    Ok(#[verifier::truncate] (mantissa as u64))
}

} // verus!
