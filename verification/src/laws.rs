//! Cross-cutting laws of the engine, stated over the functional models of
//! the transitions and proved once and for all: solvency after redemption,
//! conservation of net principal, and idempotence of the ratio cache.

use vstd::prelude::*;
use crate::instructions::initialize::{
    initialized_mint_record,
    initialized_vault_record,
    InitializeAccounts,
};
use crate::instructions::mint::spec_mint;
use crate::instructions::redeem::spec_redeem;
use crate::oracle::OraclePrice;
use crate::stablecoin::StablecoinMint;
use crate::validation::{collateral_ratio_ok, validate_mint_spec};
use crate::vault::{ratio_recomputed, StablecoinVault};

verus! {

/// Conservation of net principal: the vault's locked value equals the units
/// ever minted minus the units ever burned, fees excluded on both sides.
pub open spec fn conserved(m: StablecoinMint, v: StablecoinVault) -> bool {
    v.total_value_locked == m.stats.total_minted - m.stats.total_burned
}

/// A fresh record pair starts conserved: zero locked value, zero history.
pub proof fn lemma_initialize_conserves(
    accounts: InitializeAccounts,
    name: Seq<char>,
    symbol: Seq<char>,
    target_currency: Seq<char>,
    now: i64,
    m: StablecoinMint,
)
    requires
        initialized_mint_record(accounts, name, symbol, target_currency, now, m),
    ensures
        conserved(m, initialized_vault_record(accounts, now)),
{
}

/// Every successful mint preserves conservation of net principal: it adds
/// the same `amount` to the locked value and to the minted total.
pub proof fn lemma_mint_conserves(
    m: StablecoinMint,
    v: StablecoinVault,
    amount: u64,
    price: OraclePrice,
    token_decimals: u8,
    now: i64,
)
    requires
        conserved(m, v),
        spec_mint(m, v, amount, price, token_decimals, now) is Ok,
    ensures
        ({
            let (m2, v2, collateral_amount, fee_amount) = spec_mint(
                m,
                v,
                amount,
                price,
                token_decimals,
                now,
            )->Ok_0;
            conserved(m2, v2)
        }),
{
}

/// Every successful redemption preserves conservation of net principal: it
/// removes the same `amount` from the locked value and adds it to the
/// burned total.
pub proof fn lemma_redeem_conserves(
    m: StablecoinMint,
    v: StablecoinVault,
    amount: u64,
    token_balance: u64,
    price: OraclePrice,
    token_decimals: u8,
    now: i64,
)
    requires
        conserved(m, v),
        spec_redeem(m, v, amount, token_balance, price, token_decimals, now) is Ok,
    ensures
        ({
            let (m2, v2, collateral_amount, fee_amount) = spec_redeem(
                m,
                v,
                amount,
                token_balance,
                price,
                token_decimals,
                now,
            )->Ok_0;
            conserved(m2, v2)
        }),
{
}

/// Solvency after redemption: a successful redemption that leaves supply
/// outstanding leaves the remaining collateral backing it at or above the
/// record's configured minimum ratio.
pub proof fn lemma_redeem_preserves_solvency(
    m: StablecoinMint,
    v: StablecoinVault,
    amount: u64,
    token_balance: u64,
    price: OraclePrice,
    token_decimals: u8,
    now: i64,
)
    requires
        spec_redeem(m, v, amount, token_balance, price, token_decimals, now) is Ok,
    ensures
        ({
            let (m2, v2, collateral_amount, fee_amount) = spec_redeem(
                m,
                v,
                amount,
                token_balance,
                price,
                token_decimals,
                now,
            )->Ok_0;
            m2.current_supply > 0 ==> collateral_ratio_ok(
                v2.total_collateral,
                m2.current_supply,
                m.settings.min_collateral_ratio,
            )
        }),
{
}

/// The defensive mint gate establishes solvency: when every mint
/// precondition passes, the collateral currently held already backs the
/// post-mint supply at or above the record's configured minimum ratio.
pub proof fn lemma_validated_mint_is_solvent(
    m: StablecoinMint,
    amount: u64,
    price: OraclePrice,
    current_collateral: u64,
)
    requires
        validate_mint_spec(m, amount, price, current_collateral) is Ok,
    ensures
        collateral_ratio_ok(
            current_collateral,
            (m.current_supply + amount) as u64,
            m.settings.min_collateral_ratio,
        ),
{
}

/// Idempotence of the ratio cache: recomputing the cached collateral ratio
/// twice in a row without an intervening mutation gives exactly the vault
/// that one recomputation gives.
pub proof fn lemma_ratio_recompute_idempotent(v: StablecoinVault)
    ensures
        ratio_recomputed(ratio_recomputed(v)) == ratio_recomputed(v),
{
}

} // verus!
