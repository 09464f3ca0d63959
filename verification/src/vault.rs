//! The vault record: the collateral pool backing one issuance record. It
//! owns collateral accounting and the cached collateral-ratio computation.

use vstd::prelude::*;
use crate::error::StableFunError;
use crate::state::{AccountId, StateAccount, DISCRIMINATOR_LENGTH, PUBKEY_LENGTH};

verus! {

/// The cached ratio in basis points: `total_value_locked * 10000 /
/// total_collateral`, and `0` when either operand is `0`.
pub open spec fn cached_ratio_bps(total_value_locked: u64, total_collateral: u64) -> int {
    if total_value_locked == 0 || total_collateral == 0 {
        0
    } else {
        total_value_locked * 10000 / total_collateral as int
    }
}

/// The vault after one cache recomputation: the ratio cache is refreshed
/// from the totals when the fresh value fits in 16 bits, and everything else
/// — including the cache, when it does not fit — stays as it was.
pub open spec fn ratio_recomputed(v: StablecoinVault) -> StablecoinVault {
    if cached_ratio_bps(v.total_value_locked, v.total_collateral) <= u16::MAX {
        StablecoinVault {
            current_ratio: cached_ratio_bps(v.total_value_locked, v.total_collateral) as u16,
            ..v
        }
    } else {
        v
    }
}

/// The collateral pool backing one issuance record, 1:1 with it.
#[derive(Clone, Copy, Debug, PartialEq, Eq, Structural)]
pub struct StablecoinVault {
    /// Back-reference to the issuance record, set at creation
    pub stablecoin_mint: AccountId,
    /// The authority of the issuance record
    pub authority: AccountId,
    /// Reference to the external collateral holding account
    pub collateral_account: AccountId,
    /// Raw collateral units held
    pub total_collateral: u64,
    /// Issued-unit-equivalent value the collateral currently backs
    pub total_value_locked: u64,
    /// Cached ratio in basis points, recomputed after every mutation
    pub current_ratio: u16,
    /// Timestamp of the last deposit
    pub last_deposit_time: i64,
    /// Timestamp of the last withdrawal
    pub last_withdrawal_time: i64,
    /// Number of deposits processed
    pub deposit_count: u32,
    /// Number of withdrawals processed
    pub withdrawal_count: u32,
    /// Address-derivation bump of the vault account
    pub bump: u8,
}

impl StateAccount for StablecoinVault {
    open spec fn spec_len() -> usize {
        (DISCRIMINATOR_LENGTH + PUBKEY_LENGTH + PUBKEY_LENGTH + PUBKEY_LENGTH + 8 + 8 + 2 + 8 + 8
            + 4 + 4 + 1) as usize
    }

    fn len() -> (r: usize) {
        DISCRIMINATOR_LENGTH + PUBKEY_LENGTH + PUBKEY_LENGTH + PUBKEY_LENGTH + 8 + 8 + 2 + 8 + 8
            + 4 + 4 + 1
    }
}

impl StablecoinVault {
    /// A fresh vault with zeroed collateral, value, ratio and counters.
    pub fn new(
        stablecoin_mint: AccountId,
        authority: AccountId,
        collateral_account: AccountId,
        bump: u8,
    ) -> (r: Self)
        ensures
            r == (StablecoinVault {
                stablecoin_mint,
                authority,
                collateral_account,
                total_collateral: 0,
                total_value_locked: 0,
                current_ratio: 0,
                last_deposit_time: 0,
                last_withdrawal_time: 0,
                deposit_count: 0,
                withdrawal_count: 0,
                bump,
            }),
    {
        StablecoinVault {
            stablecoin_mint,
            authority,
            collateral_account,
            total_collateral: 0,
            total_value_locked: 0,
            current_ratio: 0,
            last_deposit_time: 0,
            last_withdrawal_time: 0,
            deposit_count: 0,
            withdrawal_count: 0,
            bump,
        }
    }

    /// Recomputes the cached collateral ratio from the current totals,
    /// failing with `MathOverflow` (and leaving the cache untouched) when the
    /// ratio does not fit in 16 bits.
    pub fn update_collateral_ratio(&mut self) -> (r: Result<(), StableFunError>)
        ensures
            cached_ratio_bps(old(self).total_value_locked, old(self).total_collateral) <= u16::MAX
                ==> r == Ok::<(), StableFunError>(()) && *final (self) == (StablecoinVault {
                current_ratio: cached_ratio_bps(
                    old(self).total_value_locked,
                    old(self).total_collateral,
                ) as u16,
                ..*old(self)
            }),
            cached_ratio_bps(old(self).total_value_locked, old(self).total_collateral) > u16::MAX
                ==> r == Err::<(), StableFunError>(StableFunError::MathOverflow) && *final (self)
                == *old(self),
            *final (self) == ratio_recomputed(*old(self)),
    {
        if self.total_value_locked == 0 || self.total_collateral == 0 {
            self.current_ratio = 0;
            return Ok(());
        }
        let ratio: u128 = (self.total_value_locked as u128) * 10000 / (
        self.total_collateral as u128);
        if ratio > u16::MAX as u128 {
            return Err(StableFunError::MathOverflow);
        }
        self.current_ratio = ratio as u16;
        Ok(())
    }

    /// Records a deposit of `amount` collateral units backing `value`
    /// issued-unit-equivalents at time `now`. Every new total is computed and
    /// checked before anything is written: on failure the vault is unchanged.
    pub fn process_deposit(&mut self, amount: u64, value: u64, now: i64) -> (r: Result<
        (),
        StableFunError,
    >)
        ensures
            ({
                let new_collateral = old(self).total_collateral + amount;
                let new_value = old(self).total_value_locked + value;
                if new_collateral <= u64::MAX && new_value <= u64::MAX && old(self).deposit_count
                    + 1 <= u32::MAX && cached_ratio_bps(
                    new_value as u64,
                    new_collateral as u64,
                ) <= u16::MAX {
                    r == Ok::<(), StableFunError>(()) && *final (self) == (StablecoinVault {
                        total_collateral: new_collateral as u64,
                        total_value_locked: new_value as u64,
                        current_ratio: cached_ratio_bps(
                            new_value as u64,
                            new_collateral as u64,
                        ) as u16,
                        last_deposit_time: now,
                        deposit_count: (old(self).deposit_count + 1) as u32,
                        ..*old(self)
                    })
                } else {
                    r == Err::<(), StableFunError>(StableFunError::MathOverflow) && *final (self)
                        == *old(self)
                }
            }),
    {
        let new_collateral = match self.total_collateral.checked_add(amount) {
            Some(v) => v,
            None => return Err(StableFunError::MathOverflow),
        };
        let new_value = match self.total_value_locked.checked_add(value) {
            Some(v) => v,
            None => return Err(StableFunError::MathOverflow),
        };
        let new_count = match self.deposit_count.checked_add(1) {
            Some(v) => v,
            None => return Err(StableFunError::MathOverflow),
        };
        let ratio: u128 = if new_value == 0 || new_collateral == 0 {
            0
        } else {
            (new_value as u128) * 10000 / (new_collateral as u128)
        };
        if ratio > u16::MAX as u128 {
            return Err(StableFunError::MathOverflow);
        }
        self.total_collateral = new_collateral;
        self.total_value_locked = new_value;
        self.last_deposit_time = now;
        self.deposit_count = new_count;
        self.current_ratio = ratio as u16;
        Ok(())
    }

    /// Records a withdrawal of `amount` collateral units releasing `value`
    /// issued-unit-equivalents at time `now`. Fails with
    /// `InsufficientCollateral` when the pool holds less than `amount`, and
    /// with `MathOverflow` on any underflow; on failure the vault is
    /// unchanged.
    pub fn process_withdrawal(&mut self, amount: u64, value: u64, now: i64) -> (r: Result<
        (),
        StableFunError,
    >)
        ensures
            amount > old(self).total_collateral ==> r == Err::<(), StableFunError>(
                StableFunError::InsufficientCollateral,
            ) && *final (self) == *old(self),
            amount <= old(self).total_collateral ==> ({
                let new_collateral = old(self).total_collateral - amount;
                let new_value = old(self).total_value_locked - value;
                if new_value >= 0 && old(self).withdrawal_count + 1 <= u32::MAX && cached_ratio_bps(
                    new_value as u64,
                    new_collateral as u64,
                ) <= u16::MAX {
                    r == Ok::<(), StableFunError>(()) && *final (self) == (StablecoinVault {
                        total_collateral: new_collateral as u64,
                        total_value_locked: new_value as u64,
                        current_ratio: cached_ratio_bps(
                            new_value as u64,
                            new_collateral as u64,
                        ) as u16,
                        last_withdrawal_time: now,
                        withdrawal_count: (old(self).withdrawal_count + 1) as u32,
                        ..*old(self)
                    })
                } else {
                    r == Err::<(), StableFunError>(StableFunError::MathOverflow) && *final (self)
                        == *old(self)
                }
            }),
    {
        if amount > self.total_collateral {
            return Err(StableFunError::InsufficientCollateral);
        }
        let new_collateral = self.total_collateral - amount;
        let new_value = match self.total_value_locked.checked_sub(value) {
            Some(v) => v,
            None => return Err(StableFunError::MathOverflow),
        };
        let new_count = match self.withdrawal_count.checked_add(1) {
            Some(v) => v,
            None => return Err(StableFunError::MathOverflow),
        };
        let ratio: u128 = if new_value == 0 || new_collateral == 0 {
            0
        } else {
            (new_value as u128) * 10000 / (new_collateral as u128)
        };
        if ratio > u16::MAX as u128 {
            return Err(StableFunError::MathOverflow);
        }
        self.total_collateral = new_collateral;
        self.total_value_locked = new_value;
        self.last_withdrawal_time = now;
        self.withdrawal_count = new_count;
        self.current_ratio = ratio as u16;
        Ok(())
    }

    /// Whether withdrawing `amount` collateral units would leave a non-empty
    /// pool whose cached ratio still fits in 16 bits and stays at or above
    /// `min_ratio`.
    pub fn can_withdraw(&self, amount: u64, min_ratio: u16) -> (r: bool)
        ensures
            r == ({
                &&& amount < self.total_collateral
                &&& self.total_collateral - amount > 0
                &&& self.total_value_locked * 10000 / (self.total_collateral - amount) <= u16::MAX
                &&& self.total_value_locked * 10000 / (self.total_collateral - amount)
                    >= min_ratio
            }),
    {
        if amount >= self.total_collateral {
            return false;
        }
        let new_collateral = self.total_collateral - amount;
        if new_collateral == 0 {
            return false;
        }
        let new_ratio: u128 = (self.total_value_locked as u128) * 10000 / (new_collateral as u128);
        if new_ratio > u16::MAX as u128 {
            return false;
        }
        (new_ratio as u16) >= min_ratio
    }
}

} // verus!
