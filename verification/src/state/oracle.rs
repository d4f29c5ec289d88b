//! Oracle price readings and the freshness and confidence predicates the
//! gateway checks before a price is trusted.

use vstd::prelude::*;

verus! {

/// The supported price feed providers.
#[derive(Clone, Copy, Debug, PartialEq, Eq, Structural)]
pub enum OracleType {
    Pyth,
    Switchboard,
}

/// Configuration of one price feed.
#[derive(Clone, Copy, Debug, PartialEq, Eq, Structural)]
pub struct OracleConfig {
    pub oracle_type: OracleType,
    pub price_feed: u64,
    /// Maximum age of a reading, in seconds.
    pub max_staleness: i64,
    /// Maximum allowed confidence interval, as a fraction of the price in
    /// basis points.
    pub max_deviation: u64,
    pub decimals: u8,
    pub is_active: bool,
}

/// One price reading, as handed in by the external price feed.
#[derive(Clone, Copy, Debug, PartialEq, Eq, Structural)]
pub struct PriceData {
    pub price: u64,
    /// Width of the reading's confidence interval, in price units.
    pub confidence: u64,
    pub timestamp: i64,
    pub is_valid: bool,
}

impl PriceData {
    /// Whether the reading's confidence interval, as a fraction of the
    /// price, stays within `max_deviation` basis points. A zero price is
    /// never trusted.
    pub open spec fn spec_has_high_confidence(&self, max_deviation: u64) -> bool {
        if self.price == 0 {
            false
        } else {
            self.confidence * 10000 / (self.price as int) <= max_deviation
        }
    }

    /// Whether the reading is older than `max_staleness` seconds at time
    /// `now`.
    pub fn is_stale(&self, now: i64, max_staleness: i64) -> (r: bool)
        ensures
            r == (now - self.timestamp > max_staleness),
    {
        (now as i128) - (self.timestamp as i128) > max_staleness as i128
    }

    /// Checks the reading's confidence against `max_deviation`.
    pub fn has_high_confidence(&self, max_deviation: u64) -> (r: bool)
        ensures
            r == self.spec_has_high_confidence(max_deviation),
    {
        if self.price == 0 {
            return false;
        }
        let deviation: u128 = (self.confidence as u128) * 10000 / (self.price as u128);
        deviation <= max_deviation as u128
    }
}

} // verus!
