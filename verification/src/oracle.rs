//! Oracle price validation: normalizing a raw price sample to the canonical
//! decimal scale, rejecting stale or non-positive samples, and computing
//! confidence-adjusted safe prices and a median across up to three feeds.

use vstd::prelude::*;
use crate::error::StableFunError;

verus! {

// Constants
pub const MAX_PRICE_STALENESS: i64 = 300; // 5 minutes
pub const PRICE_DECIMALS: u8 = 6;
pub const MAX_ORACLE_CONFIDENCE: u64 = 100_000; // 1% of base price
pub const MIN_ORACLE_COUNT: usize = 1;
pub const MAX_ORACLE_COUNT: usize = 3;

/// Ten to the `n`th power.
pub open spec fn pow10(n: nat) -> int
    decreases n,
{
    if n == 0 {
        1
    } else {
        10 * pow10((n - 1) as nat)
    }
}

pub proof fn lemma_pow10_positive(n: nat)
    ensures
        pow10(n) >= 1,
    decreases n,
{
    if n > 0 {
        lemma_pow10_positive((n - 1) as nat);
    }
}

/// A raw price sample as handed over by an external feed.
#[derive(Clone, Copy, Debug, PartialEq, Eq, Structural)]
pub struct OraclePrice {
    /// Price value at `decimals` precision
    pub value: u64,
    /// Number of decimals of `value`
    pub decimals: u8,
    /// When the sample was produced
    pub last_updated: i64,
    /// Confidence interval around `value`
    pub confidence: u64,
}

/// The rescaling of `value` from `decimals` to the canonical
/// `PRICE_DECIMALS`, or `MathOverflow` when the rescale leaves 64 bits.
pub open spec fn standardized(value: u64, decimals: u8) -> Result<u64, StableFunError> {
    if decimals == PRICE_DECIMALS {
        Ok(value)
    } else if decimals > PRICE_DECIMALS {
        if pow10((decimals - PRICE_DECIMALS) as nat) <= u64::MAX {
            Ok((value as int / pow10((decimals - PRICE_DECIMALS) as nat)) as u64)
        } else {
            Err(StableFunError::MathOverflow)
        }
    } else {
        if value * pow10((PRICE_DECIMALS - decimals) as nat) <= u64::MAX {
            Ok((value * pow10((PRICE_DECIMALS - decimals) as nat)) as u64)
        } else {
            Err(StableFunError::MathOverflow)
        }
    }
}

/// Ten to the `n`th power as a 64-bit value, or `None` when it does not fit.
pub(crate) fn pow10_u64(n: u8) -> (r: Option<u64>)
    ensures
        pow10(n as nat) <= u64::MAX ==> r == Some(pow10(n as nat) as u64),
        pow10(n as nat) > u64::MAX ==> r == None::<u64>,
{
    let mut acc: u64 = 1;
    let mut i: u8 = 0;
    while i < n
        invariant
            i <= n,
            acc == pow10(i as nat),
        decreases n - i,
    {
        acc = match acc.checked_mul(10) {
            Some(v) => v,
            None => {
                proof {
                    lemma_pow10_grows(i as nat, n as nat);
                }
                return None;
            },
        };
        i = i + 1;
    }
    Some(acc)
}

pub proof fn lemma_pow10_monotone(a: nat, b: nat)
    requires
        a <= b,
    ensures
        pow10(a) <= pow10(b),
    decreases b,
{
    if a < b {
        lemma_pow10_monotone(a, (b - 1) as nat);
        lemma_pow10_positive((b - 1) as nat);
    }
}

/// Once some power of ten leaves 64 bits, every later one does too.
proof fn lemma_pow10_grows(i: nat, n: nat)
    requires
        i <= n,
        pow10((i + 1) as nat) > u64::MAX,
    ensures
        n > i ==> pow10(n) > u64::MAX,
    decreases n,
{
    if n > i + 1 {
        lemma_pow10_grows(i, (n - 1) as nat);
        lemma_pow10_positive((n - 1) as nat);
    }
}

impl OraclePrice {
    pub fn new(value: u64, decimals: u8, last_updated: i64, confidence: u64) -> (r: Self)
        ensures
            r == (OraclePrice { value, decimals, last_updated, confidence }),
    {
        OraclePrice { value, decimals, last_updated, confidence }
    }

    /// Whether the sample is older than `MAX_PRICE_STALENESS` seconds at
    /// `current_timestamp`.
    pub fn is_stale(&self, current_timestamp: i64) -> (r: bool)
        ensures
            r == (current_timestamp - self.last_updated > MAX_PRICE_STALENESS),
    {
        let age: i128 = current_timestamp as i128 - self.last_updated as i128;
        age > MAX_PRICE_STALENESS as i128
    }

    /// Rescales the sample's value to the canonical `PRICE_DECIMALS` scale by
    /// integer multiply or divide, failing with `MathOverflow` when the
    /// rescale overflows.
    pub fn standardize(&self) -> (r: Result<u64, StableFunError>)
        ensures
            r == standardized(self.value, self.decimals),
    {
        let current_decimals = self.decimals;
        let target_decimals = PRICE_DECIMALS;
        if current_decimals == target_decimals {
            Ok(self.value)
        } else if current_decimals > target_decimals {
            let diff = current_decimals - target_decimals;
            match pow10_u64(diff) {
                Some(divisor) => {
                    proof {
                        lemma_pow10_positive(diff as nat);
                    }
                    Ok(self.value / divisor)
                },
                None => Err(StableFunError::MathOverflow),
            }
        } else {
            let diff = target_decimals - current_decimals;
            match pow10_u64(diff) {
                Some(factor) => {
                    proof {
                        lemma_pow10_positive(diff as nat);
                    }
                    match self.value.checked_mul(factor) {
                        Some(v) => Ok(v),
                        None => Err(StableFunError::MathOverflow),
                    }
                },
                None => {
                    // Unreachable: the factor is at most ten to the sixth.
                    proof {
                        lemma_pow10_monotone(diff as nat, 6);
                        reveal_with_fuel(pow10, 7);
                        assert(pow10(6) == 1000000);
                    }
                    Err(StableFunError::MathOverflow)
                },
            }
        }
    }
}

/// The validation outcome on one sample at time `now`: non-positive prices
/// and out-of-confidence samples are `InvalidOraclePrice`, old samples are
/// `StaleOraclePrice`.
pub open spec fn validate_price_spec(
    price: OraclePrice,
    max_confidence_interval: Option<u64>,
    now: i64,
) -> Result<(), StableFunError> {
    if price.value == 0 {
        Err(StableFunError::InvalidOraclePrice)
    } else if now - price.last_updated > MAX_PRICE_STALENESS {
        Err(StableFunError::StaleOraclePrice)
    } else if price.confidence > (match max_confidence_interval {
        Some(m) => m,
        None => MAX_ORACLE_CONFIDENCE,
    }) {
        Err(StableFunError::InvalidOraclePrice)
    } else {
        Ok(())
    }
}

/// The subsequence of samples that pass validation at time `now`, in input
/// order.
pub open spec fn valid_samples(s: Seq<OraclePrice>, now: i64) -> Seq<OraclePrice>
    decreases s.len(),
{
    if s.len() == 0 {
        Seq::empty()
    } else {
        valid_samples(s.drop_last(), now) + (if validate_price_spec(s.last(), None, now) is Ok {
            seq![s.last()]
        } else {
            Seq::empty()
        })
    }
}

pub proof fn lemma_valid_samples_len(s: Seq<OraclePrice>, now: i64)
    ensures
        valid_samples(s, now).len() <= s.len(),
    decreases s.len(),
{
    if s.len() > 0 {
        lemma_valid_samples_len(s.drop_last(), now);
    }
}

/// Of three samples, the one whose value sits in the middle, resolving ties
/// the way a stable ascending sort of `[a, b, c]` orders them.
pub open spec fn middle_of_three(a: OraclePrice, b: OraclePrice, c: OraclePrice) -> OraclePrice {
    if b.value < a.value {
        if c.value < a.value {
            if c.value < b.value {
                b
            } else {
                c
            }
        } else {
            a
        }
    } else {
        if c.value < b.value {
            if c.value < a.value {
                a
            } else {
                c
            }
        } else {
            b
        }
    }
}

/// The sample a stable ascending sort by value puts at index `len / 2`:
/// the single sample, the larger of two, or the middle of three.
pub open spec fn median_sample(s: Seq<OraclePrice>) -> OraclePrice
    recommends
        1 <= s.len() <= 3,
{
    if s.len() == 1 {
        s[0]
    } else if s.len() == 2 {
        if s[1].value < s[0].value {
            s[0]
        } else {
            s[1]
        }
    } else {
        middle_of_three(s[0], s[1], s[2])
    }
}

/// The standardized price shifted by the sample's confidence interval:
/// upward for an upper bound, downward otherwise, failing with
/// `MathOverflow` when the shift leaves 64 bits.
pub open spec fn safe_price_of(price: OraclePrice, is_upper_bound: bool) -> Result<
    u64,
    StableFunError,
> {
    match standardized(price.value, price.decimals) {
        Ok(base) => if is_upper_bound {
            if base + price.confidence <= u64::MAX {
                Ok((base + price.confidence) as u64)
            } else {
                Err(StableFunError::MathOverflow)
            }
        } else {
            if base >= price.confidence {
                Ok((base - price.confidence) as u64)
            } else {
                Err(StableFunError::MathOverflow)
            }
        },
        Err(e) => Err(e),
    }
}

/// Stateless oracle operations: validating a sample, standardizing it, and
/// aggregating several samples into one trustworthy price.
pub struct OracleService;

impl OracleService {
    /// Rejects a sample that is non-positive, stale at `now`, or wider than
    /// the given (or default) confidence bound.
    pub fn validate_price(
        price: &OraclePrice,
        max_confidence_interval: Option<u64>,
        now: i64,
    ) -> (r: Result<(), StableFunError>)
        ensures
            r == validate_price_spec(*price, max_confidence_interval, now),
    {
        if price.value == 0 {
            return Err(StableFunError::InvalidOraclePrice);
        }
        if price.is_stale(now) {
            return Err(StableFunError::StaleOraclePrice);
        }
        let max_confidence = match max_confidence_interval {
            Some(m) => m,
            None => MAX_ORACLE_CONFIDENCE,
        };
        if price.confidence > max_confidence {
            return Err(StableFunError::InvalidOraclePrice);
        }
        Ok(())
    }

    /// Validates a sample at `now` and standardizes it to the canonical
    /// scale: the one trusted price for a single transition.
    pub fn verify_oracle_price(price: &OraclePrice, now: i64) -> (r: Result<u64, StableFunError>)
        ensures
            r == (match validate_price_spec(*price, None, now) {
                Ok(u) => standardized(price.value, price.decimals),
                Err(e) => Err(e),
            }),
    {
        match Self::validate_price(price, None, now) {
            Ok(u) => price.standardize(),
            Err(e) => Err(e),
        }
    }

    /// Picks the stable-sorted middle value of the samples that validate at
    /// `now`, silently dropping the ones that do not. Fails with
    /// `InvalidOracle` unless between `MIN_ORACLE_COUNT` and
    /// `MAX_ORACLE_COUNT` samples are offered, and with `InvalidOraclePrice`
    /// when none of them validates.
    pub fn get_median_price(prices: &Vec<OraclePrice>, now: i64) -> (r: Result<
        OraclePrice,
        StableFunError,
    >)
        ensures
            !(MIN_ORACLE_COUNT <= prices@.len() <= MAX_ORACLE_COUNT) ==> r == Err::<
                OraclePrice,
                StableFunError,
            >(StableFunError::InvalidOracle),
            MIN_ORACLE_COUNT <= prices@.len() <= MAX_ORACLE_COUNT ==> r == (if valid_samples(
                prices@,
                now,
            ).len() == 0 {
                Err::<OraclePrice, StableFunError>(StableFunError::InvalidOraclePrice)
            } else {
                Ok::<OraclePrice, StableFunError>(median_sample(valid_samples(prices@, now)))
            }),
    {
        if prices.len() < MIN_ORACLE_COUNT || prices.len() > MAX_ORACLE_COUNT {
            return Err(StableFunError::InvalidOracle);
        }
        let ghost all = prices@;
        let mut valid: Vec<OraclePrice> = Vec::new();
        let mut i: usize = 0;
        while i < prices.len()
            invariant
                i <= prices@.len(),
                valid@ == valid_samples(prices@.take(i as int), now),
            decreases prices@.len() - i,
        {
            let p = prices[i];
            proof {
                assert(prices@.take(i + 1).drop_last() =~= prices@.take(i as int));
                assert(prices@.take(i + 1).last() == prices@[i as int]);
            }
            if Self::validate_price(&p, None, now).is_ok() {
                valid.push(p);
                proof {
                    assert(valid@ =~= valid_samples(prices@.take(i + 1), now));
                }
            }
            i = i + 1;
        }
        proof {
            assert(prices@.take(prices@.len() as int) =~= prices@);
            lemma_valid_samples_len(prices@, now);
        }
        if valid.len() == 0 {
            return Err(StableFunError::InvalidOraclePrice);
        }
        if valid.len() == 1 {
            Ok(valid[0])
        } else if valid.len() == 2 {
            if valid[1].value < valid[0].value {
                Ok(valid[0])
            } else {
                Ok(valid[1])
            }
        } else {
            let a = valid[0];
            let b = valid[1];
            let c = valid[2];
            if b.value < a.value {
                if c.value < a.value {
                    if c.value < b.value {
                        Ok(b)
                    } else {
                        Ok(c)
                    }
                } else {
                    Ok(a)
                }
            } else {
                if c.value < b.value {
                    if c.value < a.value {
                        Ok(a)
                    } else {
                        Ok(c)
                    }
                } else {
                    Ok(b)
                }
            }
        }
    }

    /// The sample's standardized value shifted by its confidence interval:
    /// up for an upper bound, down for a lower bound.
    pub fn calculate_safe_price(price: &OraclePrice, is_upper_bound: bool) -> (r: Result<
        u64,
        StableFunError,
    >)
        ensures
            r == safe_price_of(*price, is_upper_bound),
    {
        let base_price = match price.standardize() {
            Ok(v) => v,
            Err(e) => return Err(e),
        };
        if is_upper_bound {
            match base_price.checked_add(price.confidence) {
                Some(v) => Ok(v),
                None => Err(StableFunError::MathOverflow),
            }
        } else {
            match base_price.checked_sub(price.confidence) {
                Some(v) => Ok(v),
                None => Err(StableFunError::MathOverflow),
            }
        }
    }

    /// The confidence-adjusted median across the offered samples: the median
    /// at `now`, then its safe price in the requested direction.
    pub fn aggregate_price(prices: &Vec<OraclePrice>, is_upper_bound: bool, now: i64) -> (r:
        Result<u64, StableFunError>)
        ensures
            r == (match Self::median_price_spec(prices@, now) {
                Ok(p) => safe_price_of(p, is_upper_bound),
                Err(e) => Err(e),
            }),
    {
        match Self::get_median_price(prices, now) {
            Ok(median_price) => Self::calculate_safe_price(&median_price, is_upper_bound),
            Err(e) => Err(e),
        }
    }

    /// What `get_median_price` returns for the given sample sequence.
    pub open spec fn median_price_spec(prices: Seq<OraclePrice>, now: i64) -> Result<
        OraclePrice,
        StableFunError,
    > {
        if !(MIN_ORACLE_COUNT <= prices.len() <= MAX_ORACLE_COUNT) {
            Err(StableFunError::InvalidOracle)
        } else if valid_samples(prices, now).len() == 0 {
            Err(StableFunError::InvalidOraclePrice)
        } else {
            Ok(median_sample(valid_samples(prices, now)))
        }
    }
}

} // verus!
