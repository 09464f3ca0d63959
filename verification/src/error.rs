//! Error taxonomy for the issuance engine, plus small check helpers that
//! turn a failed bound into its named error.

use vstd::prelude::*;
use crate::state::AccountId;

verus! {

/// Every failure the engine can surface. The first failing check aborts a
/// transition before any state is touched; no error is silently swallowed.
#[derive(Clone, Copy, Debug, PartialEq, Eq, Structural)]
pub enum StableFunError {
    NameTooShort,
    SymbolTooShort,
    InvalidName,
    InvalidSymbol,
    InvalidCurrency,
    InvalidAmount,
    InsufficientCollateral,
    InvalidOraclePrice,
    StaleOraclePrice,
    MathOverflow,
    InvalidTokenAccount,
    InvalidVault,
    MaxSupplyExceeded,
    InsufficientBalance,
    AccountOwnerMismatch,
    InvalidOracle,
    InvalidMint,
    InvalidStablebond,
    InvalidVaultAccount,
    MintingPaused,
    RedeemingPaused,
    CollateralRatioTooLow,
    CollateralRatioTooHigh,
    FeeTooHigh,
    AmountTooSmall,
    AmountTooLarge,
    InvalidTokenOwner,
    EmptyVault,
    InvalidMaxSupply,
}

// Helper functions for common error checks
impl StableFunError {
    /// Accepts a name of at least three characters.
    pub fn check_name_length(name: &str) -> (r: Result<(), StableFunError>)
        ensures
            r == if name@.len() >= 3 {
                Ok::<(), StableFunError>(())
            } else {
                Err::<(), StableFunError>(StableFunError::NameTooShort)
            },
    {
        if name.unicode_len() >= 3 {
            Ok(())
        } else {
            Err(StableFunError::NameTooShort)
        }
    }

    /// Accepts a symbol of at least two characters.
    pub fn check_symbol_length(symbol: &str) -> (r: Result<(), StableFunError>)
        ensures
            r == if symbol@.len() >= 2 {
                Ok::<(), StableFunError>(())
            } else {
                Err::<(), StableFunError>(StableFunError::SymbolTooShort)
            },
    {
        if symbol.unicode_len() >= 2 {
            Ok(())
        } else {
            Err(StableFunError::SymbolTooShort)
        }
    }

    /// Accepts an amount inside `[min, max]`, naming the bound it broke.
    pub fn check_amount(amount: u64, min: u64, max: u64) -> (r: Result<(), StableFunError>)
        ensures
            r == if amount < min {
                Err::<(), StableFunError>(StableFunError::AmountTooSmall)
            } else if amount > max {
                Err::<(), StableFunError>(StableFunError::AmountTooLarge)
            } else {
                Ok::<(), StableFunError>(())
            },
    {
        if amount < min {
            Err(StableFunError::AmountTooSmall)
        } else if amount > max {
            Err(StableFunError::AmountTooLarge)
        } else {
            Ok(())
        }
    }

    /// Accepts a collateral ratio inside `[min, max]`, naming the bound it
    /// broke.
    pub fn check_collateral_ratio(ratio: u16, min: u16, max: u16) -> (r: Result<
        (),
        StableFunError,
    >)
        ensures
            r == if ratio < min {
                Err::<(), StableFunError>(StableFunError::CollateralRatioTooLow)
            } else if ratio > max {
                Err::<(), StableFunError>(StableFunError::CollateralRatioTooHigh)
            } else {
                Ok::<(), StableFunError>(())
            },
    {
        if ratio < min {
            Err(StableFunError::CollateralRatioTooLow)
        } else if ratio > max {
            Err(StableFunError::CollateralRatioTooHigh)
        } else {
            Ok(())
        }
    }

    /// Accepts a token account owned by the expected identity.
    pub fn check_token_owner(
        owner: &AccountId,
        expected: &AccountId,
    ) -> (r: Result<(), StableFunError>)
        ensures
            r == if owner == expected {
                Ok::<(), StableFunError>(())
            } else {
                Err::<(), StableFunError>(StableFunError::InvalidTokenOwner)
            },
    {
        if owner == expected {
            Ok(())
        } else {
            Err(StableFunError::InvalidTokenOwner)
        }
    }

    /// Accepts a vault that holds any balance at all.
    pub fn check_vault_balance(balance: u64) -> (r: Result<(), StableFunError>)
        ensures
            r == if balance > 0 {
                Ok::<(), StableFunError>(())
            } else {
                Err::<(), StableFunError>(StableFunError::EmptyVault)
            },
    {
        if balance > 0 {
            Ok(())
        } else {
            Err(StableFunError::EmptyVault)
        }
    }

    /// Accepts a positive price under a non-negative staleness allowance:
    /// the staleness rule compares `now - max_staleness` against `now`, so
    /// only a negative allowance can reject.
    pub fn check_oracle_price(price: u64, max_staleness: i64, now: i64) -> (r: Result<
        (),
        StableFunError,
    >)
        ensures
            r == if price == 0 {
                Err::<(), StableFunError>(StableFunError::InvalidOraclePrice)
            } else if now - max_staleness > now {
                Err::<(), StableFunError>(StableFunError::StaleOraclePrice)
            } else {
                Ok::<(), StableFunError>(())
            },
    {
        if price == 0 {
            return Err(StableFunError::InvalidOraclePrice);
        }
        if max_staleness < 0 {
            return Err(StableFunError::StaleOraclePrice);
        }
        Ok(())
    }
}

} // verus!
