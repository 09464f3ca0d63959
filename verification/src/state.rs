//! Items shared by every persistent record: the opaque account reference,
//! record-size accounting, and the transient oracle price sample.

use vstd::prelude::*;

verus! {

// Common constants shared across modules
pub const MAX_NAME_LENGTH: usize = 32;
pub const MAX_SYMBOL_LENGTH: usize = 10;
pub const MAX_CURRENCY_LENGTH: usize = 10;
pub const DISCRIMINATOR_LENGTH: usize = 8;
pub const PUBKEY_LENGTH: usize = 32;

// Price precision constants
pub const PRICE_DECIMALS: u8 = 6;
pub const PRICE_SCALE: u64 = 1_000_000; // ten to the PRICE_DECIMALS

/// An opaque reference to an account held by the hosting environment:
/// 32 bytes of address, stored as four 64-bit words. The engine never
/// interprets a reference; it only stores and compares them.
#[derive(Clone, Copy, Debug, Hash, PartialEq, Eq, Structural)]
pub struct AccountId {
    pub w0: u64,
    pub w1: u64,
    pub w2: u64,
    pub w3: u64,
}

impl AccountId {
    /// Builds a reference from its four address words.
    pub fn new(w0: u64, w1: u64, w2: u64, w3: u64) -> (r: AccountId)
        ensures
            r == (AccountId { w0, w1, w2, w3 }),
    {
        AccountId { w0, w1, w2, w3 }
    }
}

impl Default for AccountId {
    /// The all-zero reference, matching an uninitialized account address.
    fn default() -> (r: Self)
        ensures
            r == (AccountId { w0: 0, w1: 0, w2: 0, w3: 0 }),
    {
        AccountId { w0: 0, w1: 0, w2: 0, w3: 0 }
    }
}

/// Common trait for persistent record types: each states the byte size the
/// hosting store must reserve for it.
pub trait StateAccount {
    spec fn spec_len() -> usize;

    fn len() -> (r: usize)
        ensures
            r == Self::spec_len(),
    ;
}

/// A price sample from the external oracle: consumed once per transition
/// and discarded, never persisted.
#[derive(Clone, Copy, Debug, PartialEq, Eq, Structural)]
pub struct PriceData {
    pub price: u64,
    pub last_updated: i64,
    pub confidence: u64,
}

impl PriceData {
    pub fn new(price: u64, last_updated: i64, confidence: u64) -> (r: Self)
        ensures
            r == (PriceData { price, last_updated, confidence }),
    {
        PriceData { price, last_updated, confidence }
    }

    /// Whether the sample may be trusted at time `now`: positive price,
    /// confidence within `max_confidence`, and not older than `max_age`.
    pub fn is_valid(&self, now: i64, max_age: i64, max_confidence: u64) -> (r: bool)
        ensures
            r == (self.price > 0 && self.confidence <= max_confidence && now - self.last_updated
                <= max_age),
    {
        let age: i128 = now as i128 - self.last_updated as i128;
        self.price > 0 && self.confidence <= max_confidence && age <= max_age as i128
    }
}

} // verus!
