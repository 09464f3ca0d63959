//! The issuance record: per-stablecoin configuration, running supply, and
//! statistics. It owns the rules for minting and redemption eligibility.

use vstd::prelude::*;
use crate::error::StableFunError;
use crate::state::{AccountId, StateAccount, DISCRIMINATOR_LENGTH, PUBKEY_LENGTH, MAX_NAME_LENGTH,
    MAX_SYMBOL_LENGTH, MAX_CURRENCY_LENGTH};

verus! {

/// Configuration settings of one issuance record.
#[derive(Clone, Copy, Debug, PartialEq, Eq, Structural)]
pub struct StablecoinSettings {
    /// Fee in basis points (1/10000)
    pub fee_basis_points: u16,
    /// Maximum supply of stablecoins
    pub max_supply: u64,
    /// Minimum collateral ratio in basis points (e.g. 15000 = 150%)
    pub min_collateral_ratio: u16,
    /// Whether minting is paused
    pub mint_paused: bool,
    /// Whether redeeming is paused
    pub redeem_paused: bool,
}

impl Default for StablecoinSettings {
    /// All-zero settings, for a record not yet initialized.
    fn default() -> (r: Self)
        ensures
            r == (StablecoinSettings {
                fee_basis_points: 0,
                max_supply: 0,
                min_collateral_ratio: 0,
                mint_paused: false,
                redeem_paused: false,
            }),
    {
        StablecoinSettings {
            fee_basis_points: 0,
            max_supply: 0,
            min_collateral_ratio: 0,
            mint_paused: false,
            redeem_paused: false,
        }
    }
}

/// Running statistics of one issuance record; every field is monotonically
/// non-decreasing across transitions.
#[derive(Clone, Copy, Debug, PartialEq, Eq)]
pub struct StablecoinStats {
    /// Total amount of stablecoins minted
    pub total_minted: u64,
    /// Total amount of stablecoins burned
    pub total_burned: u64,
    /// Total fees collected
    pub total_fees: u64,
    /// Number of unique holders
    pub holder_count: u32,
    /// Reserved for future use
    pub reserved: [u8; 24],
}

impl Default for StablecoinStats {
    /// All-zero statistics, as set at creation.
    fn default() -> (r: Self)
        ensures
            r.total_minted == 0,
            r.total_burned == 0,
            r.total_fees == 0,
            r.holder_count == 0,
    {
        StablecoinStats {
            total_minted: 0,
            total_burned: 0,
            total_fees: 0,
            holder_count: 0,
            reserved: [0u8; 24],
        }
    }
}

/// One issuance record: the configuration and running totals for one issued
/// synthetic unit. Created once; mutated only by the transition handlers.
#[derive(Clone, Debug)]
pub struct StablecoinMint {
    /// The authority who can update settings
    pub authority: AccountId,
    /// Name of the stablecoin
    pub name: String,
    /// Symbol of the stablecoin (e.g., "USDX")
    pub symbol: String,
    /// Target fiat currency (e.g., "USD", "MXN")
    pub target_currency: String,
    /// The issued token's ledger reference
    pub token_mint: AccountId,
    /// The collateral token's ledger reference
    pub stablebond_mint: AccountId,
    /// The oracle feed for price data
    pub price_feed: AccountId,
    /// Vault holding the collateral
    pub vault: AccountId,
    /// Current supply of the stablecoin, fees included
    pub current_supply: u64,
    /// Configuration settings
    pub settings: StablecoinSettings,
    /// Statistics and metrics
    pub stats: StablecoinStats,
    /// Timestamp when the stablecoin was created
    pub created_at: i64,
    /// Last time settings were updated
    pub last_updated: i64,
}

impl Default for StablecoinMint {
    /// An all-zero record with empty metadata, for a record not yet
    /// initialized.
    fn default() -> (r: Self)
        ensures
            r.authority == (AccountId { w0: 0, w1: 0, w2: 0, w3: 0 }),
            r.name@ == Seq::<char>::empty(),
            r.symbol@ == Seq::<char>::empty(),
            r.target_currency@ == Seq::<char>::empty(),
            r.token_mint == (AccountId { w0: 0, w1: 0, w2: 0, w3: 0 }),
            r.stablebond_mint == (AccountId { w0: 0, w1: 0, w2: 0, w3: 0 }),
            r.price_feed == (AccountId { w0: 0, w1: 0, w2: 0, w3: 0 }),
            r.vault == (AccountId { w0: 0, w1: 0, w2: 0, w3: 0 }),
            r.current_supply == 0,
            r.settings == (StablecoinSettings {
                fee_basis_points: 0,
                max_supply: 0,
                min_collateral_ratio: 0,
                mint_paused: false,
                redeem_paused: false,
            }),
            r.stats.total_minted == 0,
            r.stats.total_burned == 0,
            r.stats.total_fees == 0,
            r.stats.holder_count == 0,
            r.created_at == 0,
            r.last_updated == 0,
    {
        StablecoinMint {
            authority: AccountId { w0: 0, w1: 0, w2: 0, w3: 0 },
            name: String::new(),
            symbol: String::new(),
            target_currency: String::new(),
            token_mint: AccountId { w0: 0, w1: 0, w2: 0, w3: 0 },
            stablebond_mint: AccountId { w0: 0, w1: 0, w2: 0, w3: 0 },
            price_feed: AccountId { w0: 0, w1: 0, w2: 0, w3: 0 },
            vault: AccountId { w0: 0, w1: 0, w2: 0, w3: 0 },
            current_supply: 0,
            settings: StablecoinSettings {
                fee_basis_points: 0,
                max_supply: 0,
                min_collateral_ratio: 0,
                mint_paused: false,
                redeem_paused: false,
            },
            stats: StablecoinStats {
                total_minted: 0,
                total_burned: 0,
                total_fees: 0,
                holder_count: 0,
                reserved: [0u8; 24],
            },
            created_at: 0,
            last_updated: 0,
        }
    }
}

impl StablecoinMint {
    /// Accepts a display name that is non-empty and at most `MAX_NAME_LENGTH`
    /// characters.
    pub fn validate_name(name: &str) -> (r: Result<(), StableFunError>)
        ensures
            r == if name@.len() != 0 && name@.len() <= MAX_NAME_LENGTH {
                Ok::<(), StableFunError>(())
            } else {
                Err::<(), StableFunError>(StableFunError::InvalidName)
            },
    {
        let n = name.unicode_len();
        if n != 0 && n <= MAX_NAME_LENGTH {
            Ok(())
        } else {
            Err(StableFunError::InvalidName)
        }
    }

    /// Accepts a symbol that is non-empty and at most `MAX_SYMBOL_LENGTH`
    /// characters.
    pub fn validate_symbol(symbol: &str) -> (r: Result<(), StableFunError>)
        ensures
            r == if symbol@.len() != 0 && symbol@.len() <= MAX_SYMBOL_LENGTH {
                Ok::<(), StableFunError>(())
            } else {
                Err::<(), StableFunError>(StableFunError::InvalidSymbol)
            },
    {
        let n = symbol.unicode_len();
        if n != 0 && n <= MAX_SYMBOL_LENGTH {
            Ok(())
        } else {
            Err(StableFunError::InvalidSymbol)
        }
    }

    /// Accepts a target currency code that is non-empty and at most
    /// `MAX_CURRENCY_LENGTH` characters.
    pub fn validate_currency(currency: &str) -> (r: Result<(), StableFunError>)
        ensures
            r == if currency@.len() != 0 && currency@.len() <= MAX_CURRENCY_LENGTH {
                Ok::<(), StableFunError>(())
            } else {
                Err::<(), StableFunError>(StableFunError::InvalidCurrency)
            },
    {
        let n = currency.unicode_len();
        if n != 0 && n <= MAX_CURRENCY_LENGTH {
            Ok(())
        } else {
            Err(StableFunError::InvalidCurrency)
        }
    }

    /// Whether any transition direction is paused.
    pub fn is_paused(&self) -> (r: bool)
        ensures
            r == (self.settings.mint_paused || self.settings.redeem_paused),
    {
        self.settings.mint_paused || self.settings.redeem_paused
    }

    /// Adds the given amounts to the running statistics. Each counter keeps
    /// its old value when the addition would overflow; nothing else changes.
    pub fn update_stats(
        &mut self,
        mint_amount: Option<u64>,
        burn_amount: Option<u64>,
        fees: Option<u64>,
    )
        ensures
            final (self).stats.total_minted == (match mint_amount {
                Some(a) if old(self).stats.total_minted + a <= u64::MAX => (old(
                    self,
                ).stats.total_minted + a) as u64,
                _ => old(self).stats.total_minted,
            }),
            final (self).stats.total_burned == (match burn_amount {
                Some(a) if old(self).stats.total_burned + a <= u64::MAX => (old(
                    self,
                ).stats.total_burned + a) as u64,
                _ => old(self).stats.total_burned,
            }),
            final (self).stats.total_fees == (match fees {
                Some(f) if old(self).stats.total_fees + f <= u64::MAX => (old(
                    self,
                ).stats.total_fees + f) as u64,
                _ => old(self).stats.total_fees,
            }),
            final (self).stats.holder_count == old(self).stats.holder_count,
            final (self).stats.reserved == old(self).stats.reserved,
            final (self).authority == old(self).authority,
            final (self).name == old(self).name,
            final (self).symbol == old(self).symbol,
            final (self).target_currency == old(self).target_currency,
            final (self).token_mint == old(self).token_mint,
            final (self).stablebond_mint == old(self).stablebond_mint,
            final (self).price_feed == old(self).price_feed,
            final (self).vault == old(self).vault,
            final (self).current_supply == old(self).current_supply,
            final (self).settings == old(self).settings,
            final (self).created_at == old(self).created_at,
            final (self).last_updated == old(self).last_updated,
    {
        if let Some(amount) = mint_amount {
            self.stats.total_minted = match self.stats.total_minted.checked_add(amount) {
                Some(v) => v,
                None => self.stats.total_minted,
            };
        }
        if let Some(amount) = burn_amount {
            self.stats.total_burned = match self.stats.total_burned.checked_add(amount) {
                Some(v) => v,
                None => self.stats.total_burned,
            };
        }
        if let Some(fee) = fees {
            self.stats.total_fees = match self.stats.total_fees.checked_add(fee) {
                Some(v) => v,
                None => self.stats.total_fees,
            };
        }
    }

    /// The fee owed on `amount` at this record's configured rate:
    /// `amount * fee_basis_points / 10000`, computed with a 128-bit
    /// intermediate so that `MathOverflow` comes only when the fee itself
    /// does not fit in 64 bits.
    pub fn calculate_fee(&self, amount: u64) -> (r: Result<u64, StableFunError>)
        ensures
            amount * self.settings.fee_basis_points / 10000 <= u64::MAX ==> r == Ok::<
                u64,
                StableFunError,
            >((amount * self.settings.fee_basis_points / 10000) as u64),
            amount * self.settings.fee_basis_points / 10000 > u64::MAX ==> r == Err::<
                u64,
                StableFunError,
            >(StableFunError::MathOverflow),
    {
        proof {
            vstd::arithmetic::mul::lemma_mul_upper_bound(
                amount as int,
                u64::MAX as int,
                self.settings.fee_basis_points as int,
                u16::MAX as int,
            );
        }
        let fee: u128 = (amount as u128) * (self.settings.fee_basis_points as u128) / 10000;
        if fee > u64::MAX as u128 {
            Err(StableFunError::MathOverflow)
        } else {
            Ok(fee as u64)
        }
    }

    /// Whether the mint direction is paused.
    pub fn is_mint_paused(&self) -> (r: bool)
        ensures
            r == self.settings.mint_paused,
    {
        self.settings.mint_paused
    }

    /// Whether the redeem direction is paused.
    pub fn is_redeem_paused(&self) -> (r: bool)
        ensures
            r == self.settings.redeem_paused,
    {
        self.settings.redeem_paused
    }

    /// Whether a mint of `amount` units is currently admissible: not paused
    /// and within the configured maximum supply.
    pub fn can_mint(&self, amount: u64) -> (r: bool)
        ensures
            r == (!self.settings.mint_paused && self.current_supply + amount
                <= self.settings.max_supply),
    {
        if self.is_mint_paused() {
            return false;
        }
        match self.current_supply.checked_add(amount) {
            Some(new_supply) => new_supply <= self.settings.max_supply,
            None => false,
        }
    }
}

impl StateAccount for StablecoinMint {
    open spec fn spec_len() -> usize {
        (DISCRIMINATOR_LENGTH + PUBKEY_LENGTH + (4 + MAX_NAME_LENGTH) + (4 + MAX_SYMBOL_LENGTH) + (4
            + MAX_CURRENCY_LENGTH) + PUBKEY_LENGTH + PUBKEY_LENGTH + PUBKEY_LENGTH + PUBKEY_LENGTH
            + 8 + 32 + 40 + 8 + 8) as usize
    }

    fn len() -> (r: usize) {
        DISCRIMINATOR_LENGTH + PUBKEY_LENGTH + (4 + MAX_NAME_LENGTH) + (4 + MAX_SYMBOL_LENGTH) + (4
            + MAX_CURRENCY_LENGTH) + PUBKEY_LENGTH + PUBKEY_LENGTH + PUBKEY_LENGTH + PUBKEY_LENGTH
            + 8 + 32 + 40 + 8 + 8
    }
}

} // verus!
