//! The Initialize transition: creates an issuance record and its vault with
//! default settings, zeroed totals, and a validated first oracle sample.

use vstd::prelude::*;
use crate::constants::{MAX_NAME_LENGTH, MAX_SYMBOL_LENGTH};
use crate::error::StableFunError;
use crate::stablecoin::{StablecoinMint, StablecoinSettings, StablecoinStats};
use crate::state::AccountId;
use crate::vault::StablecoinVault;

verus! {

// Constants
pub const MIN_NAME_LENGTH: usize = 3;
pub const MIN_SYMBOL_LENGTH: usize = 2;
pub const DEFAULT_COLLATERAL_RATIO: u16 = 15000; // 150%

/// The notification a successful initialization emits.
#[derive(Clone, Debug)]
pub struct StablecoinInitialized {
    /// The new issuance record
    pub stablecoin_mint: AccountId,
    /// The authority that created it
    pub authority: AccountId,
    pub name: String,
    pub symbol: String,
    pub target_currency: String,
}

/// The external references a new issuance record is wired to: the addresses
/// the hosting store assigned to the record and its vault, the ledger
/// references of the two tokens, the price feed, the vault's collateral
/// account, and the vault's address-derivation bump.
#[derive(Clone, Copy, Debug, PartialEq, Eq, Structural)]
pub struct InitializeAccounts {
    pub stablecoin_mint: AccountId,
    pub authority: AccountId,
    pub token_mint: AccountId,
    pub stablebond_mint: AccountId,
    pub price_feed: AccountId,
    pub vault: AccountId,
    pub vault_token_account: AccountId,
    pub vault_bump: u8,
}

/// The issuance record Initialize writes: caller-supplied metadata, the
/// given references, zero supply, default settings, zeroed statistics.
pub open spec fn initialized_mint_record(
    accounts: InitializeAccounts,
    name: Seq<char>,
    symbol: Seq<char>,
    target_currency: Seq<char>,
    now: i64,
    r: StablecoinMint,
) -> bool {
    r == (StablecoinMint {
        authority: accounts.authority,
        name: r.name,
        symbol: r.symbol,
        target_currency: r.target_currency,
        token_mint: accounts.token_mint,
        stablebond_mint: accounts.stablebond_mint,
        price_feed: accounts.price_feed,
        vault: accounts.vault,
        current_supply: 0,
        settings: StablecoinSettings {
            min_collateral_ratio: DEFAULT_COLLATERAL_RATIO,
            fee_basis_points: 30,
            max_supply: u64::MAX,
            mint_paused: false,
            redeem_paused: false,
        },
        stats: StablecoinStats {
            total_minted: 0,
            total_burned: 0,
            total_fees: 0,
            holder_count: 0,
            reserved: r.stats.reserved,
        },
        created_at: now,
        last_updated: now,
    }) && r.name@ == name && r.symbol@ == symbol && r.target_currency@ == target_currency && (
    forall|i: int| 0 <= i < 24 ==> r.stats.reserved[i] == 0)
}

/// The vault Initialize writes: wired to the record, zeroed totals and
/// counters, both activity timestamps set to creation time.
pub open spec fn initialized_vault_record(accounts: InitializeAccounts, now: i64) -> StablecoinVault {
    StablecoinVault {
        stablecoin_mint: accounts.stablecoin_mint,
        authority: accounts.authority,
        collateral_account: accounts.vault_token_account,
        total_collateral: 0,
        total_value_locked: 0,
        current_ratio: 0,
        last_deposit_time: now,
        last_withdrawal_time: now,
        deposit_count: 0,
        withdrawal_count: 0,
        bump: accounts.vault_bump,
    }
}

/// The verdict on an Initialize request: name within three to thirty-two
/// characters (too short is its own error, too long is `InvalidName`),
/// symbol within two to ten likewise, a non-empty currency code, and a
/// positive first oracle sample.
pub open spec fn initialize_verdict(
    name: Seq<char>,
    symbol: Seq<char>,
    target_currency: Seq<char>,
    oracle_mantissa: i128,
) -> Result<(), StableFunError> {
    if name.len() < MIN_NAME_LENGTH {
        Err(StableFunError::NameTooShort)
    } else if symbol.len() < MIN_SYMBOL_LENGTH {
        Err(StableFunError::SymbolTooShort)
    } else if name.len() > MAX_NAME_LENGTH {
        Err(StableFunError::InvalidName)
    } else if symbol.len() > MAX_SYMBOL_LENGTH {
        Err(StableFunError::InvalidSymbol)
    } else if target_currency.len() == 0 {
        Err(StableFunError::InvalidCurrency)
    } else if oracle_mantissa <= 0 {
        Err(StableFunError::InvalidOraclePrice)
    } else {
        Ok(())
    }
}

/// Runs the Initialize transition at time `now`: bounds the metadata,
/// demands a positive first sample from the configured feed (its raw
/// mantissa), and creates the record pair with `current_supply = 0` and
/// default settings. `initial_supply` is accepted for interface
/// compatibility and deliberately never mints.
pub fn handler(
    accounts: InitializeAccounts,
    name: String,
    symbol: String,
    target_currency: String,
    initial_supply: u64,
    oracle_mantissa: i128,
    now: i64,
) -> (r: Result<(StablecoinMint, StablecoinVault, StablecoinInitialized), StableFunError>)
    ensures
        initialize_verdict(name@, symbol@, target_currency@, oracle_mantissa) matches Err(e)
            ==> r is Err && r->Err_0 == e,
        initialize_verdict(name@, symbol@, target_currency@, oracle_mantissa) is Ok ==> r is Ok
            && ({
            let (m, v, ev) = r->Ok_0;
            &&& initialized_mint_record(accounts, name@, symbol@, target_currency@, now, m)
            &&& v == initialized_vault_record(accounts, now)
            &&& ev.stablecoin_mint == accounts.stablecoin_mint
            &&& ev.authority == accounts.authority
            &&& ev.name@ == name@
            &&& ev.symbol@ == symbol@
            &&& ev.target_currency@ == target_currency@
        }),
{
    let name_len = name.unicode_len();
    let symbol_len = symbol.unicode_len();
    if name_len < MIN_NAME_LENGTH {
        return Err(StableFunError::NameTooShort);
    }
    if symbol_len < MIN_SYMBOL_LENGTH {
        return Err(StableFunError::SymbolTooShort);
    }
    if name_len > MAX_NAME_LENGTH {
        return Err(StableFunError::InvalidName);
    }
    if symbol_len > MAX_SYMBOL_LENGTH {
        return Err(StableFunError::InvalidSymbol);
    }
    if target_currency.unicode_len() == 0 {
        return Err(StableFunError::InvalidCurrency);
    }
    if oracle_mantissa <= 0 {
        return Err(StableFunError::InvalidOraclePrice);
    }
    let stablecoin_mint = StablecoinMint {
        authority: accounts.authority,
        name: name.clone(),
        symbol: symbol.clone(),
        target_currency: target_currency.clone(),
        token_mint: accounts.token_mint,
        stablebond_mint: accounts.stablebond_mint,
        price_feed: accounts.price_feed,
        vault: accounts.vault,
        current_supply: 0,
        settings: StablecoinSettings {
            min_collateral_ratio: DEFAULT_COLLATERAL_RATIO,
            fee_basis_points: 30,  // 0.3% fee
            max_supply: u64::MAX,
            mint_paused: false,
            redeem_paused: false,
        },
        stats: StablecoinStats {
            total_minted: 0,
            total_burned: 0,
            total_fees: 0,
            holder_count: 0,
            reserved: [0u8; 24],
        },
        created_at: now,
        last_updated: now,
    };
    let vault = StablecoinVault {
        stablecoin_mint: accounts.stablecoin_mint,
        authority: accounts.authority,
        collateral_account: accounts.vault_token_account,
        total_collateral: 0,
        total_value_locked: 0,
        current_ratio: 0,
        last_deposit_time: now,
        last_withdrawal_time: now,
        deposit_count: 0,
        withdrawal_count: 0,
        bump: accounts.vault_bump,
    };
    let event = StablecoinInitialized {
        stablecoin_mint: accounts.stablecoin_mint,
        authority: accounts.authority,
        name,
        symbol,
        target_currency,
    };
    Ok((stablecoin_mint, vault, event))
}

} // verus!
