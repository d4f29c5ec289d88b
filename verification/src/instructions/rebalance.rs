//! Peg correction against the treasury buffer.

use vstd::prelude::*;
use crate::constants::TARGET_PEG_PRICE;
use crate::error::ErrorCode;
use crate::math::{collateral_ratio_of, deviation_bps_of, deviation_bps};
use crate::state::protocol::ProtocolState;

verus! {

/// What the external token ledger must carry out after a rebalance: mint
/// to, or burn from, the treasury buffer, under the protocol authority.
#[derive(Clone, Copy, Debug, PartialEq, Eq, Structural)]
pub enum RebalanceAction {
    Minted(u64),
    Burned(u64),
}

/// Share of the stable supply moved by a rebalance, in basis points: a
/// tenth of the deviation, capped at 1000 bps (10% of supply).
pub open spec fn rebalance_percentage_of(deviation: int) -> int {
    if deviation / 10 < 1000 {
        deviation / 10
    } else {
        1000
    }
}

/// The full effect of a rebalance request: either the updated ledger and
/// the treasury action taken, or the error the request fails with, in
/// check order. `current_price` is the stable asset's market price from
/// the oracle; `treasury_balance` is the treasury's stable token balance
/// on the external ledger.
pub open spec fn spec_rebalance(
    s: ProtocolState,
    current_price: u64,
    treasury_balance: u64,
    now: i64,
) -> Result<(ProtocolState, RebalanceAction), ErrorCode> {
    if s.is_paused {
        Err(ErrorCode::ProtocolPaused)
    } else {
        let deviation = deviation_bps_of(current_price, TARGET_PEG_PRICE);
        if !(deviation > s.peg_deviation_threshold) {
            Err(ErrorCode::RebalancingNotRequired)
        } else {
            let pct = rebalance_percentage_of(deviation);
            if s.total_stablecoin_supply * pct > u64::MAX {
                Err(ErrorCode::MathOverflow)
            } else {
                let amount = (s.total_stablecoin_supply * pct / 10000) as u64;
                if current_price > TARGET_PEG_PRICE {
                    // Price above peg: expand supply to push the price down.
                    if s.total_stablecoin_supply + amount > u64::MAX {
                        Err(ErrorCode::MathOverflow)
                    } else {
                        let new_supply = (s.total_stablecoin_supply + amount) as u64;
                        Ok(
                            (
                                ProtocolState {
                                    total_stablecoin_supply: new_supply,
                                    collateral_ratio: collateral_ratio_of(
                                        s.total_collateral_value,
                                        new_supply,
                                    ) as u64,
                                    last_rebalance_timestamp: now,
                                    ..s
                                },
                                RebalanceAction::Minted(amount),
                            ),
                        )
                    }
                } else {
                    // Price at or below peg: contract supply to push it up.
                    if treasury_balance < amount {
                        Err(ErrorCode::InsufficientFunds)
                    } else if s.total_stablecoin_supply < amount {
                        Err(ErrorCode::MathOverflow)
                    } else {
                        let new_supply = (s.total_stablecoin_supply - amount) as u64;
                        Ok(
                            (
                                ProtocolState {
                                    total_stablecoin_supply: new_supply,
                                    collateral_ratio: collateral_ratio_of(
                                        s.total_collateral_value,
                                        new_supply,
                                    ) as u64,
                                    last_rebalance_timestamp: now,
                                    ..s
                                },
                                RebalanceAction::Burned(amount),
                            ),
                        )
                    }
                }
            }
        }
    }
}

/// Compares the stable asset's market price to the target peg and, where
/// the deviation exceeds the protocol threshold, moves a capped share of
/// the supply: minting to the treasury above the peg, burning from it
/// below. On success the caller must have the external token ledger carry
/// out the returned action.
pub fn rebalance(
    protocol_state: &mut ProtocolState,
    current_price: u64,
    treasury_balance: u64,
    now: i64,
) -> (r: Result<RebalanceAction, ErrorCode>)
    ensures
        ({
            let t = spec_rebalance(*old(protocol_state), current_price, treasury_balance, now);
            match t {
                Ok(ok) => {
                    &&& r == Ok::<RebalanceAction, ErrorCode>(ok.1)
                    &&& *final(protocol_state) == ok.0
                },
                Err(e) => {
                    &&& r == Err::<RebalanceAction, ErrorCode>(e)
                    &&& *final(protocol_state) == *old(protocol_state)
                },
            }
        }),
{
    if protocol_state.is_paused {
        return Err(ErrorCode::ProtocolPaused);
    }

    if !protocol_state.needs_rebalancing(current_price, TARGET_PEG_PRICE) {
        return Err(ErrorCode::RebalancingNotRequired);
    }
    let deviation: u64 = deviation_bps(current_price, TARGET_PEG_PRICE);

    let tenth: u64 = deviation / 10;
    let rebalance_percentage: u64 = if tenth < 1000 {
        tenth
    } else {
        1000
    };

    let product: u64 = match protocol_state.total_stablecoin_supply.checked_mul(
        rebalance_percentage,
    ) {
        Some(v) => v,
        None => {
            return Err(ErrorCode::MathOverflow);
        },
    };
    let rebalance_amount: u64 = product / 10000;

    if current_price > TARGET_PEG_PRICE {
        let new_supply: u64 = match protocol_state.total_stablecoin_supply.checked_add(
            rebalance_amount,
        ) {
            Some(v) => v,
            None => {
                return Err(ErrorCode::MathOverflow);
            },
        };
        protocol_state.total_stablecoin_supply = new_supply;
        protocol_state.last_rebalance_timestamp = now;
        protocol_state.collateral_ratio = protocol_state.calculate_collateral_ratio();
        Ok(RebalanceAction::Minted(rebalance_amount))
    } else {
        if treasury_balance < rebalance_amount {
            return Err(ErrorCode::InsufficientFunds);
        }
        let new_supply: u64 = match protocol_state.total_stablecoin_supply.checked_sub(
            rebalance_amount,
        ) {
            Some(v) => v,
            None => {
                return Err(ErrorCode::MathOverflow);
            },
        };
        protocol_state.total_stablecoin_supply = new_supply;
        protocol_state.last_rebalance_timestamp = now;
        protocol_state.collateral_ratio = protocol_state.calculate_collateral_ratio();
        Ok(RebalanceAction::Burned(rebalance_amount))
    }
}

} // verus!
