//! Liquidation of undercollateralized positions.

use vstd::prelude::*;
use crate::error::ErrorCode;
use crate::math::{collateral_ratio_of, health_factor_of, mul_div};
use crate::state::protocol::ProtocolState;
use crate::state::collateral::{CollateralPool, CollateralPoolPosition, UserPosition};
use crate::instructions::withdraw_collateral::{withdrawal_value_of, lemma_withdrawal_value_bounded};

verus! {

/// What a settled liquidation amounts to: the USD value of the seized
/// collateral, the liquidator's bonus (5% of that value), and the stable
/// debt the liquidator pays off (the rest). The liquidator profits by
/// receiving more collateral value than stable burned.
#[derive(Clone, Copy, Debug, PartialEq, Eq, Structural)]
pub struct LiquidationReceipt {
    pub collateral_value: u64,
    pub liquidation_bonus: u64,
    pub stablecoin_to_burn: u64,
}

/// The full effect of a liquidation request: either the updated ledger,
/// pool and position together with the receipt, or the error the request
/// fails with, in check order. The position must sit below the pool's
/// liquidation threshold; `PositionLiquidatable` fires when a healthy
/// position is attacked. `liquidator_balance` is the liquidator's stable
/// token balance on the external ledger; the liquidation is sized by
/// `collateral_amount`, chosen by the liquidator.
pub open spec fn spec_liquidate(
    s: ProtocolState,
    p: CollateralPool,
    u: UserPosition,
    collateral_amount: u64,
    liquidator_balance: u64,
    now: i64,
) -> Result<(ProtocolState, CollateralPool, UserPosition, LiquidationReceipt), ErrorCode> {
    if s.is_paused {
        Err(ErrorCode::ProtocolPaused)
    } else if !(health_factor_of(u.pool_collateral_value(), u.stablecoin_minted)
        < p.liquidation_threshold) {
        Err(ErrorCode::PositionLiquidatable)
    } else {
        match u.collateral_pool {
            None => Err(ErrorCode::InsufficientFunds),
            Some(pos) => {
                if pos.pool != p.mint {
                    Err(ErrorCode::InsufficientFunds)
                } else if pos.amount < collateral_amount {
                    Err(ErrorCode::InsufficientFunds)
                } else if pos.amount != 0 && pos.value_usd * collateral_amount > u64::MAX {
                    Err(ErrorCode::MathOverflow)
                } else {
                    let cv = withdrawal_value_of(pos, collateral_amount) as u64;
                    let bonus = (cv / 20) as u64;
                    let to_burn = (cv - bonus) as u64;
                    if liquidator_balance < to_burn {
                        Err(ErrorCode::InsufficientFunds)
                    } else if u.stablecoin_minted < to_burn {
                        Err(ErrorCode::MathOverflow)
                    } else if p.total_deposited < collateral_amount {
                        Err(ErrorCode::MathOverflow)
                    } else if p.total_value_usd < cv {
                        Err(ErrorCode::MathOverflow)
                    } else if s.total_collateral_value < cv {
                        Err(ErrorCode::MathOverflow)
                    } else if s.total_stablecoin_supply < to_burn {
                        Err(ErrorCode::MathOverflow)
                    } else {
                        let new_total = (s.total_collateral_value - cv) as u64;
                        let new_supply = (s.total_stablecoin_supply - to_burn) as u64;
                        Ok(
                            (
                                ProtocolState {
                                    total_collateral_value: new_total,
                                    total_stablecoin_supply: new_supply,
                                    collateral_ratio: collateral_ratio_of(
                                        new_total,
                                        new_supply,
                                    ) as u64,
                                    ..s
                                },
                                CollateralPool {
                                    total_deposited: (p.total_deposited - collateral_amount) as u64,
                                    total_value_usd: (p.total_value_usd - cv) as u64,
                                    ..p
                                },
                                UserPosition {
                                    stablecoin_minted: (u.stablecoin_minted - to_burn) as u64,
                                    last_update_timestamp: now,
                                    collateral_pool: Some(
                                        CollateralPoolPosition {
                                            pool: pos.pool,
                                            amount: (pos.amount - collateral_amount) as u64,
                                            value_usd: (pos.value_usd - cv) as u64,
                                        },
                                    ),
                                    ..u
                                },
                                LiquidationReceipt {
                                    collateral_value: cv,
                                    liquidation_bonus: bonus,
                                    stablecoin_to_burn: to_burn,
                                },
                            ),
                        )
                    }
                }
            },
        }
    }
}

/// Settles a (partial or full) liquidation sized by `collateral_amount`:
/// the liquidator pays off `stablecoin_to_burn` of the owner's debt and
/// receives the seized collateral, worth 5% more. On success the caller
/// must have the external token ledger burn `stablecoin_to_burn` from the
/// liquidator and transfer `collateral_amount` from the pool vault to the
/// liquidator under the protocol authority.
pub fn liquidate(
    protocol_state: &mut ProtocolState,
    collateral_pool: &mut CollateralPool,
    user_position: &mut UserPosition,
    collateral_amount: u64,
    liquidator_balance: u64,
    now: i64,
) -> (r: Result<LiquidationReceipt, ErrorCode>)
    ensures
        ({
            let t = spec_liquidate(
                *old(protocol_state),
                *old(collateral_pool),
                *old(user_position),
                collateral_amount,
                liquidator_balance,
                now,
            );
            match t {
                Ok(ok) => {
                    &&& r == Ok::<LiquidationReceipt, ErrorCode>(ok.3)
                    &&& *final(protocol_state) == ok.0
                    &&& *final(collateral_pool) == ok.1
                    &&& *final(user_position) == ok.2
                },
                Err(e) => {
                    &&& r == Err::<LiquidationReceipt, ErrorCode>(e)
                    &&& *final(protocol_state) == *old(protocol_state)
                    &&& *final(collateral_pool) == *old(collateral_pool)
                    &&& *final(user_position) == *old(user_position)
                },
            }
        }),
{
    if protocol_state.is_paused {
        return Err(ErrorCode::ProtocolPaused);
    }
    if !user_position.is_liquidatable(collateral_pool.liquidation_threshold) {
        return Err(ErrorCode::PositionLiquidatable);
    }

    let pos: CollateralPoolPosition = match &user_position.collateral_pool {
        Some(pos) => *pos,
        None => {
            return Err(ErrorCode::InsufficientFunds);
        },
    };
    if pos.pool != collateral_pool.mint {
        return Err(ErrorCode::InsufficientFunds);
    }
    if pos.amount < collateral_amount {
        return Err(ErrorCode::InsufficientFunds);
    }

    let collateral_value: u64 = if pos.amount == 0 {
        0
    } else {
        match mul_div(pos.value_usd, collateral_amount, pos.amount) {
            Ok(v) => v,
            Err(e) => {
                return Err(e);
            },
        }
    };
    proof {
        lemma_withdrawal_value_bounded(pos, collateral_amount);
    }
    let liquidation_bonus: u64 = collateral_value / 20;
    let stablecoin_to_burn: u64 = collateral_value - liquidation_bonus;

    if liquidator_balance < stablecoin_to_burn {
        return Err(ErrorCode::InsufficientFunds);
    }
    let new_minted: u64 = match user_position.stablecoin_minted.checked_sub(stablecoin_to_burn) {
        Some(v) => v,
        None => {
            return Err(ErrorCode::MathOverflow);
        },
    };
    let new_pool_deposited: u64 = match collateral_pool.total_deposited.checked_sub(
        collateral_amount,
    ) {
        Some(v) => v,
        None => {
            return Err(ErrorCode::MathOverflow);
        },
    };
    let new_pool_value: u64 = match collateral_pool.total_value_usd.checked_sub(collateral_value) {
        Some(v) => v,
        None => {
            return Err(ErrorCode::MathOverflow);
        },
    };
    let new_total: u64 = match protocol_state.total_collateral_value.checked_sub(collateral_value) {
        Some(v) => v,
        None => {
            return Err(ErrorCode::MathOverflow);
        },
    };
    let new_supply: u64 = match protocol_state.total_stablecoin_supply.checked_sub(
        stablecoin_to_burn,
    ) {
        Some(v) => v,
        None => {
            return Err(ErrorCode::MathOverflow);
        },
    };

    user_position.collateral_pool = Some(
        CollateralPoolPosition {
            pool: pos.pool,
            amount: pos.amount - collateral_amount,
            value_usd: pos.value_usd - collateral_value,
        },
    );
    user_position.stablecoin_minted = new_minted;
    user_position.last_update_timestamp = now;
    collateral_pool.total_deposited = new_pool_deposited;
    collateral_pool.total_value_usd = new_pool_value;
    protocol_state.total_collateral_value = new_total;
    protocol_state.total_stablecoin_supply = new_supply;
    protocol_state.collateral_ratio = protocol_state.calculate_collateral_ratio();
    Ok(
        LiquidationReceipt {
            collateral_value,
            liquidation_bonus,
            stablecoin_to_burn,
        },
    )
}

} // verus!
