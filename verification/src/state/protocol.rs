//! The protocol ledger: one record per deployment, holding the global
//! aggregates and configuration.

use vstd::prelude::*;
use crate::math::{collateral_ratio_of, deviation_bps_of, deviation_bps};

verus! {

/// Global protocol state. `total_collateral_value` and
/// `total_stablecoin_supply` are running aggregates over all pools and
/// positions, updated only through checked arithmetic on the deposit,
/// withdraw, mint, burn, liquidate and rebalance paths.
#[derive(Clone, Copy, Debug, PartialEq, Eq, Structural)]
pub struct ProtocolState {
    /// Identity permitted to pause and configure the protocol.
    pub authority: u64,
    /// The managed stable asset.
    pub stablecoin_mint: u64,
    /// The treasury buffer account used by rebalancing.
    pub treasury: u64,
    /// Aggregate USD value of all deposited collateral.
    pub total_collateral_value: u64,
    /// Aggregate outstanding stable supply.
    pub total_stablecoin_supply: u64,
    /// Derived collateral ratio in basis points; recomputed after every
    /// mutation, never trusted independently.
    pub collateral_ratio: u64,
    /// Minimum collateral ratio in basis points (150% = 15000).
    pub min_collateral_ratio: u64,
    /// Peg deviation threshold in basis points (2% = 200).
    pub peg_deviation_threshold: u64,
    /// While true, every state-mutating operation except unpause fails.
    pub is_paused: bool,
    pub last_rebalance_timestamp: i64,
}

impl ProtocolState {
    /// The protocol-wide collateral ratio in basis points: total
    /// collateral value, scaled by 10000, over the stable supply;
    /// `u64::MAX` ("infinitely solvent") when the supply is zero.
    pub fn calculate_collateral_ratio(&self) -> (r: u64)
        ensures
            r == collateral_ratio_of(self.total_collateral_value, self.total_stablecoin_supply),
    {
        if self.total_stablecoin_supply == 0 {
            return u64::MAX;
        }
        let num: u128 = (self.total_collateral_value as u128) * 10000;
        let q: u128 = num / (self.total_stablecoin_supply as u128);
        if q > u64::MAX as u128 {
            u64::MAX
        } else {
            q as u64
        }
    }

    /// Whether the protocol as a whole sits below its minimum collateral
    /// ratio.
    pub fn is_undercollateralized(&self) -> (r: bool)
        ensures
            r == (collateral_ratio_of(self.total_collateral_value, self.total_stablecoin_supply)
                < self.min_collateral_ratio),
    {
        let ratio = self.calculate_collateral_ratio();
        ratio < self.min_collateral_ratio
    }

    /// Whether the stable asset's market price deviates from the target
    /// peg by more than the configured threshold.
    pub fn needs_rebalancing(&self, current_price: u64, target_price: u64) -> (r: bool)
        requires
            target_price >= 10000,
        ensures
            r == (deviation_bps_of(current_price, target_price) > self.peg_deviation_threshold),
    {
        let deviation = deviation_bps(current_price, target_price);
        deviation > self.peg_deviation_threshold
    }
}

} // verus!
