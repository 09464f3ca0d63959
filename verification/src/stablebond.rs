//! Stablebond collateral support: the bond's record data, its eligibility
//! checks, and the yield-inclusive valuation of bond holdings.

use vstd::prelude::*;
use crate::oracle::{lemma_pow10_positive, pow10, pow10_u64};
use crate::state::AccountId;

verus! {

/// Failures of stablebond operations.
#[derive(Clone, Copy, Debug, PartialEq, Eq, Structural)]
pub enum StablebondError {
    StablebondMatured,
    InvalidYieldRate,
    InvalidStablebond,
    MathOverflow,
}

/// The persistent record of one stablebond mint.
#[derive(Clone, Copy, Debug, PartialEq, Eq, Structural)]
pub struct StablebondMint {
    pub authority: AccountId,
    pub underlying_mint: AccountId,
    pub current_yield: u64,
    pub maturity_timestamp: i64,
    pub supply: u64,
    pub decimals: u8,
    pub last_yield_update: i64,
    pub next_yield_update: i64,
}

/// A bond's yield rate and its update schedule.
#[derive(Clone, Copy, Debug, PartialEq, Eq, Structural)]
pub struct YieldData {
    pub current_yield: u64,
    pub last_update: i64,
    pub next_update: i64,
}

/// Constants for stablebond operations
pub const MIN_BOND_DURATION: i64 = 24 * 60 * 60; // 1 day in seconds
pub const MAX_BOND_DURATION: i64 = 365 * 24 * 60 * 60; // 1 year in seconds
pub const YIELD_DECIMALS: u8 = 6;

pub const SECONDS_PER_YEAR: u64 = 31_536_000; // 365 days
pub const YIELD_SCALE: u64 = 1_000_000; // ten to the YIELD_DECIMALS

/// A snapshot of one stablebond's data.
#[derive(Clone, Copy, Debug, PartialEq, Eq, Structural)]
pub struct StablebondData {
    pub mint: AccountId,
    pub underlying_mint: AccountId,
    pub current_yield: u64,
    pub maturity_timestamp: i64,
    pub total_supply: u64,
    pub decimals: u8,
}

/// The yield accrued on `amount` bond units held until maturity from time
/// `now`: `amount * current_yield * seconds_to_maturity`, annualized and
/// scaled down by the yield precision; `MathOverflow` when the time
/// difference leaves 64-bit time or a product leaves 64 bits. A maturity in
/// the past wraps to a huge unsigned time span, as the checked arithmetic
/// then overflows.
pub open spec fn accrued_yield_spec(amount: u64, stablebond: StablebondData, now: i64) -> Result<
    u64,
    StablebondError,
> {
    if !(i64::MIN <= stablebond.maturity_timestamp - now <= i64::MAX) {
        Err(StablebondError::MathOverflow)
    } else {
        let time_to_maturity = ((stablebond.maturity_timestamp - now) as i64) as u64;
        if amount * stablebond.current_yield > u64::MAX {
            Err(StablebondError::MathOverflow)
        } else if amount * stablebond.current_yield * time_to_maturity > u64::MAX {
            Err(StablebondError::MathOverflow)
        } else {
            Ok(
                ((amount * stablebond.current_yield * time_to_maturity / SECONDS_PER_YEAR as int)
                    / YIELD_SCALE as int) as u64,
            )
        }
    }
}

/// The value of `amount` bond units at `price`: the base conversion
/// `amount * price / 10^decimals` plus the yield accrued until maturity;
/// `MathOverflow` when any step leaves 64 bits.
pub open spec fn bond_value_spec(
    amount: u64,
    stablebond: StablebondData,
    price: u64,
    now: i64,
) -> Result<u64, StablebondError> {
    if amount * price > u64::MAX {
        Err(StablebondError::MathOverflow)
    } else if pow10(stablebond.decimals as nat) > u64::MAX {
        Err(StablebondError::MathOverflow)
    } else {
        let base_value = amount * price / pow10(stablebond.decimals as nat);
        match accrued_yield_spec(amount, stablebond, now) {
            Err(e) => Err(e),
            Ok(yield_value) => if base_value + yield_value > u64::MAX {
                Err(StablebondError::MathOverflow)
            } else {
                Ok((base_value + yield_value) as u64)
            },
        }
    }
}

/// Operations on stablebonds used as collateral.
pub struct StablebondService;

impl StablebondService {
    /// A snapshot of the bond's record; `mint` is the record's own address,
    /// assigned by the hosting store.
    pub fn get_stablebond_data(stablebond_mint: &StablebondMint, mint: AccountId) -> (r:
        StablebondData)
        ensures
            r == (StablebondData {
                mint,
                underlying_mint: stablebond_mint.underlying_mint,
                current_yield: stablebond_mint.current_yield,
                maturity_timestamp: stablebond_mint.maturity_timestamp,
                total_supply: stablebond_mint.supply,
                decimals: stablebond_mint.decimals,
            }),
    {
        StablebondData {
            mint,
            underlying_mint: stablebond_mint.underlying_mint,
            current_yield: stablebond_mint.current_yield,
            maturity_timestamp: stablebond_mint.maturity_timestamp,
            total_supply: stablebond_mint.supply,
            decimals: stablebond_mint.decimals,
        }
    }

    /// Accepts a bond as collateral while it has not matured, yields a
    /// positive rate, and has outstanding supply.
    pub fn validate_stablebond(stablebond_mint: &StablebondMint, current_timestamp: i64) -> (r:
        Result<(), StablebondError>)
        ensures
            r == if stablebond_mint.maturity_timestamp <= current_timestamp {
                Err::<(), StablebondError>(StablebondError::StablebondMatured)
            } else if stablebond_mint.current_yield == 0 {
                Err::<(), StablebondError>(StablebondError::InvalidYieldRate)
            } else if stablebond_mint.supply == 0 {
                Err::<(), StablebondError>(StablebondError::InvalidStablebond)
            } else {
                Ok::<(), StablebondError>(())
            },
    {
        if stablebond_mint.maturity_timestamp <= current_timestamp {
            return Err(StablebondError::StablebondMatured);
        }
        if stablebond_mint.current_yield == 0 {
            return Err(StablebondError::InvalidYieldRate);
        }
        if stablebond_mint.supply == 0 {
            return Err(StablebondError::InvalidStablebond);
        }
        Ok(())
    }

    /// The yield accrued on `amount` bond units held from `now` to maturity.
    pub fn calculate_accrued_yield(amount: u64, stablebond: &StablebondData, now: i64) -> (r:
        Result<u64, StablebondError>)
        ensures
            r == accrued_yield_spec(amount, *stablebond, now),
    {
        let time_to_maturity = match stablebond.maturity_timestamp.checked_sub(now) {
            Some(v) => v,
            None => return Err(StablebondError::MathOverflow),
        };
        let span = #[verifier::truncate] (time_to_maturity as u64);
        let scaled = match amount.checked_mul(stablebond.current_yield) {
            Some(v) => v,
            None => return Err(StablebondError::MathOverflow),
        };
        let weighted = match scaled.checked_mul(span) {
            Some(v) => v,
            None => return Err(StablebondError::MathOverflow),
        };
        Ok(weighted / SECONDS_PER_YEAR / YIELD_SCALE)
    }

    /// The value of `amount` bond units at `price`, accrued yield included.
    pub fn calculate_value(amount: u64, stablebond: &StablebondData, price: u64, now: i64) -> (r:
        Result<u64, StablebondError>)
        ensures
            r == bond_value_spec(amount, *stablebond, price, now),
    {
        let product = match amount.checked_mul(price) {
            Some(v) => v,
            None => return Err(StablebondError::MathOverflow),
        };
        let divisor = match pow10_u64(stablebond.decimals) {
            Some(v) => v,
            None => return Err(StablebondError::MathOverflow),
        };
        proof {
            lemma_pow10_positive(stablebond.decimals as nat);
        }
        let base_value = product / divisor;
        let yield_value = match Self::calculate_accrued_yield(amount, stablebond, now) {
            Ok(v) => v,
            Err(e) => return Err(e),
        };
        match base_value.checked_add(yield_value) {
            Some(v) => Ok(v),
            None => Err(StablebondError::MathOverflow),
        }
    }

    /// The bond's yield rate and update schedule.
    pub fn get_yield_data(stablebond_mint: &StablebondMint) -> (r: YieldData)
        ensures
            r == (YieldData {
                current_yield: stablebond_mint.current_yield,
                last_update: stablebond_mint.last_yield_update,
                next_update: stablebond_mint.next_yield_update,
            }),
    {
        YieldData {
            current_yield: stablebond_mint.current_yield,
            last_update: stablebond_mint.last_yield_update,
            next_update: stablebond_mint.next_yield_update,
        }
    }
}

} // verus!
