//! The UpdateSettings and UpdateMetadata transitions: each optional field is
//! independently overridable; the record's update timestamp is always
//! touched, and a before/after snapshot is emitted.

use vstd::prelude::*;
use crate::constants::{MAX_NAME_LENGTH, MAX_SYMBOL_LENGTH, MIN_NAME_LENGTH, MIN_SYMBOL_LENGTH};
use crate::error::StableFunError;
use crate::stablecoin::{StablecoinMint, StablecoinSettings};
use crate::state::AccountId;

verus! {

/// Per-field overrides for an issuance record's settings; a `None` leaves
/// the field as it is.
#[derive(Clone, Copy, Debug, PartialEq, Eq, Structural)]
pub struct UpdateSettingsParams {
    pub min_collateral_ratio: Option<u16>,
    pub fee_basis_points: Option<u16>,
    pub max_supply: Option<u64>,
    pub mint_paused: Option<bool>,
    pub redeem_paused: Option<bool>,
}

/// Per-field overrides for an issuance record's display metadata.
#[derive(Clone, Debug)]
pub struct UpdateMetadataParams {
    pub name: Option<String>,
    pub symbol: Option<String>,
    pub icon_uri: Option<String>,
}

/// The before/after snapshot a settings update emits.
#[derive(Clone, Copy, Debug, PartialEq, Eq, Structural)]
pub struct SettingsUpdateEvent {
    pub stablecoin_mint: AccountId,
    pub authority: AccountId,
    pub old_settings: StablecoinSettings,
    pub new_settings: StablecoinSettings,
    pub timestamp: i64,
}

/// The notification a metadata update emits, carrying the new values.
#[derive(Clone, Debug)]
pub struct MetadataUpdateEvent {
    pub stablecoin_mint: AccountId,
    pub authority: AccountId,
    pub name: String,
    pub symbol: String,
    pub timestamp: i64,
}

/// Failures of the update transitions.
#[derive(Clone, Copy, Debug, PartialEq, Eq, Structural)]
pub enum UpdateError {
    UnauthorizedUpdate,
    InvalidCollateralRatio,
    InvalidFee,
    InvalidMaxSupply,
    InvalidName,
    InvalidSymbol,
}

/// The settings after applying the overrides in `params`.
pub open spec fn settings_with(s: StablecoinSettings, params: UpdateSettingsParams) -> StablecoinSettings {
    StablecoinSettings {
        min_collateral_ratio: match params.min_collateral_ratio {
            Some(v) => v,
            None => s.min_collateral_ratio,
        },
        fee_basis_points: match params.fee_basis_points {
            Some(v) => v,
            None => s.fee_basis_points,
        },
        max_supply: match params.max_supply {
            Some(v) => v,
            None => s.max_supply,
        },
        mint_paused: match params.mint_paused {
            Some(v) => v,
            None => s.mint_paused,
        },
        redeem_paused: match params.redeem_paused {
            Some(v) => v,
            None => s.redeem_paused,
        },
    }
}

/// Applies a settings update at time `now` on behalf of `authority` (already
/// vetted by the hosting environment). The one cross-field rule: a new
/// maximum supply may not undercut the current supply, failing with
/// `InvalidMaxSupply` and leaving the record unchanged. On success the
/// returned event holds the before/after snapshot.
pub fn handler(
    stablecoin_mint: &mut StablecoinMint,
    params: UpdateSettingsParams,
    stablecoin_key: AccountId,
    authority: AccountId,
    now: i64,
) -> (r: Result<SettingsUpdateEvent, StableFunError>)
    ensures
        (params.max_supply matches Some(new_max) && new_max < old(stablecoin_mint).current_supply)
            ==> r == Err::<SettingsUpdateEvent, StableFunError>(StableFunError::InvalidMaxSupply)
            && *final (stablecoin_mint) == *old(stablecoin_mint),
        !(params.max_supply matches Some(new_max) && new_max < old(
            stablecoin_mint,
        ).current_supply) ==> r == Ok::<SettingsUpdateEvent, StableFunError>(
            SettingsUpdateEvent {
                stablecoin_mint: stablecoin_key,
                authority,
                old_settings: old(stablecoin_mint).settings,
                new_settings: settings_with(old(stablecoin_mint).settings, params),
                timestamp: now,
            },
        ) && *final (stablecoin_mint) == (StablecoinMint {
            settings: settings_with(old(stablecoin_mint).settings, params),
            last_updated: now,
            ..*old(stablecoin_mint)
        }),
        final (stablecoin_mint).stats == old(stablecoin_mint).stats,
        final (stablecoin_mint).current_supply == old(stablecoin_mint).current_supply,
{
    if let Some(new_max_supply) = params.max_supply {
        if new_max_supply < stablecoin_mint.current_supply {
            return Err(StableFunError::InvalidMaxSupply);
        }
    }
    let old_settings = stablecoin_mint.settings;
    if let Some(new_ratio) = params.min_collateral_ratio {
        stablecoin_mint.settings.min_collateral_ratio = new_ratio;
    }
    if let Some(new_fee) = params.fee_basis_points {
        stablecoin_mint.settings.fee_basis_points = new_fee;
    }
    if let Some(new_max_supply) = params.max_supply {
        stablecoin_mint.settings.max_supply = new_max_supply;
    }
    if let Some(paused) = params.mint_paused {
        stablecoin_mint.settings.mint_paused = paused;
    }
    if let Some(paused) = params.redeem_paused {
        stablecoin_mint.settings.redeem_paused = paused;
    }
    stablecoin_mint.last_updated = now;
    Ok(
        SettingsUpdateEvent {
            stablecoin_mint: stablecoin_key,
            authority,
            old_settings,
            new_settings: stablecoin_mint.settings,
            timestamp: now,
        },
    )
}

/// Applies a metadata update at time `now` on behalf of `authority` (already
/// vetted by the hosting environment). A supplied name must stay within the
/// record's bounds of three to thirty-two characters, a supplied symbol
/// within two to ten; the first failing bound names the error and leaves the
/// record unchanged. An icon reference is accepted but not stored by this
/// record.
pub fn update_metadata(
    stablecoin_mint: &mut StablecoinMint,
    params: UpdateMetadataParams,
    stablecoin_key: AccountId,
    authority: AccountId,
    now: i64,
) -> (r: Result<MetadataUpdateEvent, UpdateError>)
    ensures
        (params.name matches Some(n) && !(MIN_NAME_LENGTH <= n@.len() <= MAX_NAME_LENGTH)) ==> r
            == Err::<MetadataUpdateEvent, UpdateError>(UpdateError::InvalidName)
            && *final (stablecoin_mint) == *old(stablecoin_mint),
        !(params.name matches Some(n) && !(MIN_NAME_LENGTH <= n@.len() <= MAX_NAME_LENGTH)) && (
        params.symbol matches Some(s) && !(MIN_SYMBOL_LENGTH <= s@.len() <= MAX_SYMBOL_LENGTH))
            ==> r == Err::<MetadataUpdateEvent, UpdateError>(UpdateError::InvalidSymbol)
            && *final (stablecoin_mint) == *old(stablecoin_mint),
        !(params.name matches Some(n) && !(MIN_NAME_LENGTH <= n@.len() <= MAX_NAME_LENGTH)) && !(
        params.symbol matches Some(s) && !(MIN_SYMBOL_LENGTH <= s@.len() <= MAX_SYMBOL_LENGTH))
            ==> ({
            &&& *final (stablecoin_mint) == (StablecoinMint {
                name: final (stablecoin_mint).name,
                symbol: final (stablecoin_mint).symbol,
                last_updated: now,
                ..*old(stablecoin_mint)
            })
            &&& final (stablecoin_mint).name@ == (match params.name {
                Some(n) => n@,
                None => old(stablecoin_mint).name@,
            })
            &&& final (stablecoin_mint).symbol@ == (match params.symbol {
                Some(s) => s@,
                None => old(stablecoin_mint).symbol@,
            })
            &&& r is Ok
            &&& r->Ok_0.stablecoin_mint == stablecoin_key
            &&& r->Ok_0.authority == authority
            &&& r->Ok_0.name@ == final (stablecoin_mint).name@
            &&& r->Ok_0.symbol@ == final (stablecoin_mint).symbol@
            &&& r->Ok_0.timestamp == now
        }),
{
    if let Some(new_name) = &params.name {
        let n = new_name.unicode_len();
        if n < MIN_NAME_LENGTH || n > MAX_NAME_LENGTH {
            return Err(UpdateError::InvalidName);
        }
    }
    if let Some(new_symbol) = &params.symbol {
        let n = new_symbol.unicode_len();
        if n < MIN_SYMBOL_LENGTH || n > MAX_SYMBOL_LENGTH {
            return Err(UpdateError::InvalidSymbol);
        }
    }
    if let Some(new_name) = params.name {
        stablecoin_mint.name = new_name;
    }
    if let Some(new_symbol) = params.symbol {
        stablecoin_mint.symbol = new_symbol;
    }
    stablecoin_mint.last_updated = now;
    Ok(
        MetadataUpdateEvent {
            stablecoin_mint: stablecoin_key,
            authority,
            name: stablecoin_mint.name.clone(),
            symbol: stablecoin_mint.symbol.clone(),
            timestamp: now,
        },
    )
}

} // verus!
