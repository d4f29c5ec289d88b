//! Creation of the protocol ledger.

use vstd::prelude::*;
use crate::constants::{MIN_COLLATERAL_RATIO, PEG_DEVIATION_THRESHOLD};
use crate::state::protocol::ProtocolState;

verus! {

/// Creates the protocol ledger: zero aggregates, the default ratio
/// configuration, unpaused, and an infinite collateral ratio (no supply
/// is outstanding yet).
pub fn initialize(authority: u64, stablecoin_mint: u64, treasury: u64, now: i64) -> (s:
    ProtocolState)
    ensures
        s == (ProtocolState {
            authority,
            stablecoin_mint,
            treasury,
            total_collateral_value: 0,
            total_stablecoin_supply: 0,
            collateral_ratio: u64::MAX,
            min_collateral_ratio: MIN_COLLATERAL_RATIO,
            peg_deviation_threshold: PEG_DEVIATION_THRESHOLD,
            is_paused: false,
            last_rebalance_timestamp: now,
        }),
{
    ProtocolState {
        authority,
        stablecoin_mint,
        treasury,
        total_collateral_value: 0,
        total_stablecoin_supply: 0,
        collateral_ratio: u64::MAX,
        min_collateral_ratio: MIN_COLLATERAL_RATIO,
        peg_deviation_threshold: PEG_DEVIATION_THRESHOLD,
        is_paused: false,
        last_rebalance_timestamp: now,
    }
}

} // verus!
