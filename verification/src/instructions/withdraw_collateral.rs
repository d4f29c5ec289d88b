//! Withdrawing collateral from a pool.

use vstd::prelude::*;
use crate::error::ErrorCode;
use crate::math::{collateral_ratio_of, health_factor_of, mul_div};
use crate::state::protocol::ProtocolState;
use crate::state::collateral::{CollateralPool, CollateralPoolPosition, UserPosition};

verus! {

/// USD value a withdrawal of `amount` stands for, proportional to the
/// tracked sub-position: `value_usd * amount / pos.amount`, truncating.
/// An empty sub-position (from which only zero can be withdrawn) is worth
/// zero.
pub open spec fn withdrawal_value_of(pos: CollateralPoolPosition, amount: u64) -> int {
    if pos.amount == 0 {
        0
    } else {
        pos.value_usd * amount / pos.amount as int
    }
}

/// The full effect of a withdraw request: either the updated ledger, pool
/// and user position together with the USD value released, or the error
/// the request fails with, in check order.
pub open spec fn spec_withdraw(
    s: ProtocolState,
    p: CollateralPool,
    u: UserPosition,
    amount: u64,
    now: i64,
) -> Result<(ProtocolState, CollateralPool, UserPosition, u64), ErrorCode> {
    if s.is_paused {
        Err(ErrorCode::ProtocolPaused)
    } else {
        match u.collateral_pool {
            None => Err(ErrorCode::InsufficientFunds),
            Some(pos) => {
                if pos.pool != p.mint {
                    Err(ErrorCode::InsufficientFunds)
                } else if pos.amount < amount {
                    Err(ErrorCode::InsufficientFunds)
                } else if pos.amount != 0 && pos.value_usd * amount > u64::MAX {
                    Err(ErrorCode::MathOverflow)
                } else {
                    let wv = withdrawal_value_of(pos, amount) as u64;
                    let remaining = (pos.value_usd - wv) as u64;
                    if u.stablecoin_minted > 0 && health_factor_of(remaining, u.stablecoin_minted)
                        < s.min_collateral_ratio {
                        Err(ErrorCode::InsufficientCollateralRatio)
                    } else if u.collateral_deposited < amount {
                        Err(ErrorCode::MathOverflow)
                    } else if p.total_deposited < amount {
                        Err(ErrorCode::MathOverflow)
                    } else if p.total_value_usd < wv {
                        Err(ErrorCode::MathOverflow)
                    } else if s.total_collateral_value < wv {
                        Err(ErrorCode::MathOverflow)
                    } else {
                        let new_total = (s.total_collateral_value - wv) as u64;
                        Ok(
                            (
                                ProtocolState {
                                    total_collateral_value: new_total,
                                    collateral_ratio: collateral_ratio_of(
                                        new_total,
                                        s.total_stablecoin_supply,
                                    ) as u64,
                                    ..s
                                },
                                CollateralPool {
                                    total_deposited: (p.total_deposited - amount) as u64,
                                    total_value_usd: (p.total_value_usd - wv) as u64,
                                    ..p
                                },
                                UserPosition {
                                    collateral_deposited: (u.collateral_deposited - amount) as u64,
                                    last_update_timestamp: now,
                                    collateral_pool: Some(
                                        CollateralPoolPosition {
                                            pool: pos.pool,
                                            amount: (pos.amount - amount) as u64,
                                            value_usd: remaining,
                                        },
                                    ),
                                    ..u
                                },
                                wv,
                            ),
                        )
                    }
                }
            },
        }
    }
}

/// Shows that a proportional withdrawal never releases more USD value
/// than the sub-position records.
pub proof fn lemma_withdrawal_value_bounded(pos: CollateralPoolPosition, amount: u64)
    requires
        amount <= pos.amount,
    ensures
        0 <= withdrawal_value_of(pos, amount) <= pos.value_usd,
{
    if pos.amount != 0 {
        assert(0 <= pos.value_usd * amount <= pos.value_usd * pos.amount) by (nonlinear_arith)
            requires
                amount <= pos.amount,
                0 <= amount,
                0 <= pos.value_usd,
        ;
        vstd::arithmetic::div_mod::lemma_div_pos_is_pos(
            pos.value_usd * amount,
            pos.amount as int,
        );
        vstd::arithmetic::div_mod::lemma_div_is_ordered(
            pos.value_usd * amount,
            pos.value_usd * pos.amount,
            pos.amount as int,
        );
        vstd::arithmetic::div_mod::lemma_div_by_multiple(
            pos.value_usd as int,
            pos.amount as int,
        );
    }
}

/// Withdraws `amount` collateral from the user's tracked sub-position,
/// which must belong to this pool and hold at least `amount`. The
/// withdrawal releases its proportional share of the sub-position's USD
/// value; while the user has stable debt outstanding, the health factor
/// on the remaining collateral value must stay at or above the protocol
/// minimum. On success the caller must have the external token ledger
/// transfer `amount` from the pool vault back to the user under the
/// protocol authority, and the released USD value is returned.
pub fn withdraw_collateral(
    protocol_state: &mut ProtocolState,
    collateral_pool: &mut CollateralPool,
    user_position: &mut UserPosition,
    amount: u64,
    now: i64,
) -> (r: Result<u64, ErrorCode>)
    ensures
        ({
            let t = spec_withdraw(
                *old(protocol_state),
                *old(collateral_pool),
                *old(user_position),
                amount,
                now,
            );
            match t {
                Ok(ok) => {
                    &&& r == Ok::<u64, ErrorCode>(ok.3)
                    &&& *final(protocol_state) == ok.0
                    &&& *final(collateral_pool) == ok.1
                    &&& *final(user_position) == ok.2
                },
                Err(e) => {
                    &&& r == Err::<u64, ErrorCode>(e)
                    &&& *final(protocol_state) == *old(protocol_state)
                    &&& *final(collateral_pool) == *old(collateral_pool)
                    &&& *final(user_position) == *old(user_position)
                },
            }
        }),
{
    if protocol_state.is_paused {
        return Err(ErrorCode::ProtocolPaused);
    }

    let pos: CollateralPoolPosition = match &user_position.collateral_pool {
        Some(pos) => *pos,
        None => {
            return Err(ErrorCode::InsufficientFunds);
        },
    };
    if pos.pool != collateral_pool.mint {
        return Err(ErrorCode::InsufficientFunds);
    }
    if pos.amount < amount {
        return Err(ErrorCode::InsufficientFunds);
    }

    let withdrawal_value: u64 = if pos.amount == 0 {
        0
    } else {
        match mul_div(pos.value_usd, amount, pos.amount) {
            Ok(v) => v,
            Err(e) => {
                return Err(e);
            },
        }
    };
    proof {
        lemma_withdrawal_value_bounded(pos, amount);
    }
    let remaining_collateral_value: u64 = pos.value_usd - withdrawal_value;

    if user_position.stablecoin_minted > 0 {
        let new_health_factor = user_position.calculate_health_factor(remaining_collateral_value);
        if new_health_factor < protocol_state.min_collateral_ratio {
            return Err(ErrorCode::InsufficientCollateralRatio);
        }
    }

    let new_deposited: u64 = match user_position.collateral_deposited.checked_sub(amount) {
        Some(v) => v,
        None => {
            return Err(ErrorCode::MathOverflow);
        },
    };
    let new_pool_deposited: u64 = match collateral_pool.total_deposited.checked_sub(amount) {
        Some(v) => v,
        None => {
            return Err(ErrorCode::MathOverflow);
        },
    };
    let new_pool_value: u64 = match collateral_pool.total_value_usd.checked_sub(withdrawal_value) {
        Some(v) => v,
        None => {
            return Err(ErrorCode::MathOverflow);
        },
    };
    let new_total: u64 = match protocol_state.total_collateral_value.checked_sub(withdrawal_value) {
        Some(v) => v,
        None => {
            return Err(ErrorCode::MathOverflow);
        },
    };

    user_position.collateral_pool = Some(
        CollateralPoolPosition {
            pool: pos.pool,
            amount: pos.amount - amount,
            value_usd: remaining_collateral_value,
        },
    );
    user_position.collateral_deposited = new_deposited;
    user_position.last_update_timestamp = now;
    collateral_pool.total_deposited = new_pool_deposited;
    collateral_pool.total_value_usd = new_pool_value;
    protocol_state.total_collateral_value = new_total;
    protocol_state.collateral_ratio = protocol_state.calculate_collateral_ratio();
    Ok(withdrawal_value)
}

} // verus!
