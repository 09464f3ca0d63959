//! Stateless predicates gating every transition: amount bounds,
//! collateral-ratio bounds, fee bounds, metadata bounds, and token-account
//! consistency. Each either succeeds or fails with a named error; none
//! mutates anything beyond the record passed in for recomputation.

use vstd::prelude::*;
use crate::error::StableFunError;
use crate::oracle::OraclePrice;
use crate::stablecoin::StablecoinMint;
use crate::state::AccountId;
use crate::vault::{cached_ratio_bps, StablecoinVault};

verus! {

// Constants for validation
pub const MIN_TRANSACTION_AMOUNT: u64 = 1_000;
pub const MAX_TRANSACTION_AMOUNT: u64 = 1_000_000_000_000;
pub const MIN_COLLATERAL_RATIO_BPS: u16 = 10000; // 100%
pub const MAX_COLLATERAL_RATIO_BPS: u16 = 30000; // 300%
pub const MAX_FEE_BPS: u16 = 1000; // 10%
pub const MIN_NAME_LENGTH: usize = 3;
pub const MAX_NAME_LENGTH: usize = 32;
pub const MIN_SYMBOL_LENGTH: usize = 2;
pub const MAX_SYMBOL_LENGTH: usize = 10;

/// The solvency predicate: with no outstanding supply there is no liability
/// to back; otherwise the collateral-to-supply ratio in basis points,
/// computed in wide integers and floored, must reach `min_ratio`.
pub open spec fn collateral_ratio_ok(collateral: u64, supply: u64, min_ratio: u16) -> bool {
    supply == 0 || collateral * 10000 / supply as int >= min_ratio
}

/// Whether an amount lies inside the allowed transaction range, or which
/// bound it broke.
pub open spec fn validate_amount_spec(amount: u64) -> Result<(), StableFunError> {
    if amount < MIN_TRANSACTION_AMOUNT {
        Err(StableFunError::AmountTooSmall)
    } else if amount > MAX_TRANSACTION_AMOUNT {
        Err(StableFunError::AmountTooLarge)
    } else {
        Ok(())
    }
}

/// The outcome of every mint precondition, in the order they are checked.
pub open spec fn validate_mint_spec(
    stablecoin_mint: StablecoinMint,
    amount: u64,
    oracle_price: OraclePrice,
    current_collateral: u64,
) -> Result<(), StableFunError> {
    if stablecoin_mint.settings.mint_paused {
        Err(StableFunError::MintingPaused)
    } else if validate_amount_spec(amount) is Err {
        validate_amount_spec(amount)
    } else if stablecoin_mint.current_supply + amount > u64::MAX {
        Err(StableFunError::MathOverflow)
    } else if stablecoin_mint.current_supply + amount > stablecoin_mint.settings.max_supply {
        Err(StableFunError::MaxSupplyExceeded)
    } else if oracle_price.value == 0 {
        Err(StableFunError::InvalidOraclePrice)
    } else if !collateral_ratio_ok(
        current_collateral,
        (stablecoin_mint.current_supply + amount) as u64,
        stablecoin_mint.settings.min_collateral_ratio,
    ) {
        Err(StableFunError::CollateralRatioTooLow)
    } else {
        Ok(())
    }
}

/// The outcome of every redeem precondition, in the order they are checked.
pub open spec fn validate_redeem_spec(
    stablecoin_mint: StablecoinMint,
    vault: StablecoinVault,
    amount: u64,
    token_balance: u64,
    remaining_collateral: u64,
) -> Result<(), StableFunError> {
    if stablecoin_mint.settings.redeem_paused {
        Err(StableFunError::RedeemingPaused)
    } else if validate_amount_spec(amount) is Err {
        validate_amount_spec(amount)
    } else if !(token_balance >= amount && vault.total_collateral > 0) {
        Err(StableFunError::InsufficientBalance)
    } else if stablecoin_mint.current_supply < amount {
        Err(StableFunError::MathOverflow)
    } else if !collateral_ratio_ok(
        remaining_collateral,
        (stablecoin_mint.current_supply - amount) as u64,
        stablecoin_mint.settings.min_collateral_ratio,
    ) {
        Err(StableFunError::CollateralRatioTooLow)
    } else {
        Ok(())
    }
}

/// The stateless validation service shared by every transition handler.
#[derive(Default)]
pub struct ValidationService;

impl ValidationService {
    /// Bounds a transaction amount.
    pub fn validate_amount(amount: u64) -> (r: Result<(), StableFunError>)
        ensures
            r == validate_amount_spec(amount),
    {
        if amount < MIN_TRANSACTION_AMOUNT {
            Err(StableFunError::AmountTooSmall)
        } else if amount > MAX_TRANSACTION_AMOUNT {
            Err(StableFunError::AmountTooLarge)
        } else {
            Ok(())
        }
    }

    /// The solvency gate: passes trivially when `supply` is zero, and
    /// otherwise demands `collateral * 10000 / supply >= min_ratio`,
    /// computed in wide integers.
    pub fn validate_collateral_ratio(collateral: u64, supply: u64, min_ratio: u16) -> (r: Result<
        (),
        StableFunError,
    >)
        ensures
            r == if collateral_ratio_ok(collateral, supply, min_ratio) {
                Ok::<(), StableFunError>(())
            } else {
                Err::<(), StableFunError>(StableFunError::CollateralRatioTooLow)
            },
    {
        if supply == 0 {
            return Ok(());
        }
        let ratio: u128 = (collateral as u128) * 10000 / (supply as u128);
        if ratio >= min_ratio as u128 {
            Ok(())
        } else {
            Err(StableFunError::CollateralRatioTooLow)
        }
    }

    /// Recomputes the vault's cached collateral ratio from its totals.
    pub fn update_collateral_ratio(vault: &mut StablecoinVault) -> (r: Result<(), StableFunError>)
        ensures
            cached_ratio_bps(old(vault).total_value_locked, old(vault).total_collateral)
                <= u16::MAX ==> r == Ok::<(), StableFunError>(()) && *final (vault)
                == (StablecoinVault {
                current_ratio: cached_ratio_bps(
                    old(vault).total_value_locked,
                    old(vault).total_collateral,
                ) as u16,
                ..*old(vault)
            }),
            cached_ratio_bps(old(vault).total_value_locked, old(vault).total_collateral)
                > u16::MAX ==> r == Err::<(), StableFunError>(StableFunError::MathOverflow)
                && *final (vault) == *old(vault),
    {
        vault.update_collateral_ratio()
    }

    /// Bounds a fee rate at `MAX_FEE_BPS`.
    pub fn validate_fee(fee_bps: u16) -> (r: Result<(), StableFunError>)
        ensures
            r == if fee_bps <= MAX_FEE_BPS {
                Ok::<(), StableFunError>(())
            } else {
                Err::<(), StableFunError>(StableFunError::FeeTooHigh)
            },
    {
        if fee_bps <= MAX_FEE_BPS {
            Ok(())
        } else {
            Err(StableFunError::FeeTooHigh)
        }
    }

    /// Bounds the display metadata: name within `[MIN_NAME_LENGTH,
    /// MAX_NAME_LENGTH]`, symbol within `[MIN_SYMBOL_LENGTH,
    /// MAX_SYMBOL_LENGTH]`, currency non-empty and at most five characters.
    pub fn validate_metadata(name: &str, symbol: &str, currency: &str) -> (r: Result<
        (),
        StableFunError,
    >)
        ensures
            r == if !(MIN_NAME_LENGTH <= name@.len() <= MAX_NAME_LENGTH) {
                Err::<(), StableFunError>(StableFunError::InvalidName)
            } else if !(MIN_SYMBOL_LENGTH <= symbol@.len() <= MAX_SYMBOL_LENGTH) {
                Err::<(), StableFunError>(StableFunError::InvalidSymbol)
            } else if !(0 < currency@.len() <= 5) {
                Err::<(), StableFunError>(StableFunError::InvalidCurrency)
            } else {
                Ok::<(), StableFunError>(())
            },
    {
        let name_len = name.unicode_len();
        if name_len < MIN_NAME_LENGTH || name_len > MAX_NAME_LENGTH {
            return Err(StableFunError::InvalidName);
        }
        let symbol_len = symbol.unicode_len();
        if symbol_len < MIN_SYMBOL_LENGTH || symbol_len > MAX_SYMBOL_LENGTH {
            return Err(StableFunError::InvalidSymbol);
        }
        let currency_len = currency.unicode_len();
        if currency_len == 0 || currency_len > 5 {
            return Err(StableFunError::InvalidCurrency);
        }
        Ok(())
    }

    /// Checks that a token account belongs to the expected mint and owner.
    pub fn validate_token_accounts(
        mint: AccountId,
        token_account_mint: AccountId,
        token_account_owner: AccountId,
        owner: AccountId,
    ) -> (r: Result<(), StableFunError>)
        ensures
            r == if token_account_mint == mint && token_account_owner == owner {
                Ok::<(), StableFunError>(())
            } else {
                Err::<(), StableFunError>(StableFunError::InvalidTokenAccount)
            },
    {
        if token_account_mint == mint && token_account_owner == owner {
            Ok(())
        } else {
            Err(StableFunError::InvalidTokenAccount)
        }
    }

    /// Checks that a vault backs the expected issuance record and is funded.
    pub fn validate_vault_state(vault: &StablecoinVault, stablecoin_mint: AccountId) -> (r: Result<
        (),
        StableFunError,
    >)
        ensures
            r == if vault.stablecoin_mint == stablecoin_mint && vault.total_collateral > 0 {
                Ok::<(), StableFunError>(())
            } else {
                Err::<(), StableFunError>(StableFunError::InvalidVault)
            },
    {
        if vault.stablecoin_mint == stablecoin_mint && vault.total_collateral > 0 {
            Ok(())
        } else {
            Err(StableFunError::InvalidVault)
        }
    }

    /// Runs every mint precondition in order: pause flag, amount bounds,
    /// supply cap, a positive oracle value, and the solvency gate on the
    /// post-mint supply against the collateral currently held.
    pub fn validate_mint_operation(
        stablecoin_mint: &StablecoinMint,
        amount: u64,
        oracle_price: &OraclePrice,
        current_collateral: u64,
    ) -> (r: Result<(), StableFunError>)
        ensures
            r == validate_mint_spec(*stablecoin_mint, amount, *oracle_price, current_collateral),
    {
        if stablecoin_mint.settings.mint_paused {
            return Err(StableFunError::MintingPaused);
        }
        if let Err(e) = Self::validate_amount(amount) {
            return Err(e);
        }
        let new_supply = match stablecoin_mint.current_supply.checked_add(amount) {
            Some(v) => v,
            None => return Err(StableFunError::MathOverflow),
        };
        if new_supply > stablecoin_mint.settings.max_supply {
            return Err(StableFunError::MaxSupplyExceeded);
        }
        if oracle_price.value == 0 {
            return Err(StableFunError::InvalidOraclePrice);
        }
        Self::validate_collateral_ratio(
            current_collateral,
            new_supply,
            stablecoin_mint.settings.min_collateral_ratio,
        )
    }

    /// Runs every redeem precondition in order: pause flag, amount bounds,
    /// caller balance and a funded vault, no supply underflow, and the
    /// solvency gate on what would remain.
    pub fn validate_redeem_operation(
        stablecoin_mint: &StablecoinMint,
        vault: &StablecoinVault,
        amount: u64,
        token_balance: u64,
        remaining_collateral: u64,
    ) -> (r: Result<(), StableFunError>)
        ensures
            r == validate_redeem_spec(
                *stablecoin_mint,
                *vault,
                amount,
                token_balance,
                remaining_collateral,
            ),
    {
        if stablecoin_mint.settings.redeem_paused {
            return Err(StableFunError::RedeemingPaused);
        }
        if let Err(e) = Self::validate_amount(amount) {
            return Err(e);
        }
        if !(token_balance >= amount && vault.total_collateral > 0) {
            return Err(StableFunError::InsufficientBalance);
        }
        let new_supply = match stablecoin_mint.current_supply.checked_sub(amount) {
            Some(v) => v,
            None => return Err(StableFunError::MathOverflow),
        };
        Self::validate_collateral_ratio(
            remaining_collateral,
            new_supply,
            stablecoin_mint.settings.min_collateral_ratio,
        )
    }
}

} // verus!
