//! Depositing collateral into a pool.

use vstd::prelude::*;
use crate::constants::NO_OWNER;
use crate::error::ErrorCode;
use crate::math::{collateral_ratio_of, usd_value_of, calculate_usd_value};
use crate::state::protocol::ProtocolState;
use crate::state::collateral::{CollateralPool, CollateralPoolPosition, CollateralType, UserPosition};

verus! {

/// The user position as deposit first sees it: a record never touched
/// before (its owner is `NO_OWNER`) is zero-initialized for `user`.
pub open spec fn position_for_deposit(u: UserPosition, user: u64) -> UserPosition {
    if u.owner == NO_OWNER {
        UserPosition {
            owner: user,
            collateral_deposited: 0,
            stablecoin_minted: 0,
            last_update_timestamp: u.last_update_timestamp,
            collateral_pool: None,
        }
    } else {
        u
    }
}

/// The sub-position tracked after depositing into pool `p`: amounts add
/// up when the tracked sub-position already belongs to `p`; a deposit
/// into a different pool replaces the tracked sub-position.
pub open spec fn subposition_after_deposit(
    u: UserPosition,
    p: CollateralPool,
    amount: u64,
    usd: u64,
) -> Result<CollateralPoolPosition, ErrorCode> {
    match u.collateral_pool {
        Some(pos) => {
            if pos.pool == p.mint {
                if pos.amount + amount > u64::MAX {
                    Err(ErrorCode::MathOverflow)
                } else if pos.value_usd + usd > u64::MAX {
                    Err(ErrorCode::MathOverflow)
                } else {
                    Ok(
                        CollateralPoolPosition {
                            pool: p.mint,
                            amount: (pos.amount + amount) as u64,
                            value_usd: (pos.value_usd + usd) as u64,
                        },
                    )
                }
            } else {
                Ok(CollateralPoolPosition { pool: p.mint, amount, value_usd: usd })
            }
        },
        None => Ok(CollateralPoolPosition { pool: p.mint, amount, value_usd: usd }),
    }
}

/// The full effect of a deposit request: either the updated ledger, pool
/// and user position together with the USD value credited, or the error
/// the request fails with, in check order. `user_balance` is the user's
/// collateral token balance on the external ledger; `price` and
/// `decimals` come from the pool asset's oracle and mint.
pub open spec fn spec_deposit(
    s: ProtocolState,
    p: CollateralPool,
    u: UserPosition,
    user: u64,
    collateral_type: CollateralType,
    amount: u64,
    price: u64,
    decimals: u8,
    user_balance: u64,
    now: i64,
) -> Result<(ProtocolState, CollateralPool, UserPosition, u64), ErrorCode> {
    if s.is_paused {
        Err(ErrorCode::ProtocolPaused)
    } else if !p.is_active {
        Err(ErrorCode::CollateralPoolInactive)
    } else if p.collateral_type != collateral_type {
        Err(ErrorCode::InvalidCollateralType)
    } else if p.total_deposited + amount > p.max_deposit_amount {
        Err(ErrorCode::DepositExceedsMaximum)
    } else if user_balance < amount {
        Err(ErrorCode::InsufficientFunds)
    } else if usd_value_of(amount, price, decimals) > u64::MAX {
        Err(ErrorCode::MathOverflow)
    } else {
        let usd = usd_value_of(amount, price, decimals) as u64;
        if p.total_value_usd + usd > u64::MAX {
            Err(ErrorCode::MathOverflow)
        } else {
            let u0 = position_for_deposit(u, user);
            match subposition_after_deposit(u0, p, amount, usd) {
                Err(e) => Err(e),
                Ok(sub) => {
                    if u0.collateral_deposited + amount > u64::MAX {
                        Err(ErrorCode::MathOverflow)
                    } else if s.total_collateral_value + usd > u64::MAX {
                        Err(ErrorCode::MathOverflow)
                    } else {
                        let new_total = (s.total_collateral_value + usd) as u64;
                        Ok(
                            (
                                ProtocolState {
                                    total_collateral_value: new_total,
                                    collateral_ratio: collateral_ratio_of(
                                        new_total,
                                        s.total_stablecoin_supply,
                                    ) as u64,
                                    ..s
                                },
                                CollateralPool {
                                    total_deposited: (p.total_deposited + amount) as u64,
                                    total_value_usd: (p.total_value_usd + usd) as u64,
                                    ..p
                                },
                                UserPosition {
                                    collateral_deposited: (u0.collateral_deposited + amount) as u64,
                                    last_update_timestamp: now,
                                    collateral_pool: Some(sub),
                                    ..u0
                                },
                                usd,
                            ),
                        )
                    }
                },
            }
        }
    }
}

/// Deposits `amount` collateral into the pool. The pool must be active,
/// match the named collateral type, and have capacity left; the user must
/// hold at least `amount` on the external token ledger. The deposit is
/// valued at `(amount / 10^decimals) * price` USD, credited to the pool,
/// the user position and the protocol aggregate alike. On success the
/// caller must have the external token ledger transfer `amount` from the
/// user to the pool vault, and the credited USD value is returned.
pub fn deposit_collateral(
    protocol_state: &mut ProtocolState,
    collateral_pool: &mut CollateralPool,
    user_position: &mut UserPosition,
    user: u64,
    collateral_type: CollateralType,
    amount: u64,
    price: u64,
    decimals: u8,
    user_balance: u64,
    now: i64,
) -> (r: Result<u64, ErrorCode>)
    ensures
        ({
            let t = spec_deposit(
                *old(protocol_state),
                *old(collateral_pool),
                *old(user_position),
                user,
                collateral_type,
                amount,
                price,
                decimals,
                user_balance,
                now,
            );
            match t {
                Ok(ok) => {
                    &&& r == Ok::<u64, ErrorCode>(ok.3)
                    &&& *final(protocol_state) == ok.0
                    &&& *final(collateral_pool) == ok.1
                    &&& *final(user_position) == ok.2
                },
                Err(e) => {
                    &&& r == Err::<u64, ErrorCode>(e)
                    &&& *final(protocol_state) == *old(protocol_state)
                    &&& *final(collateral_pool) == *old(collateral_pool)
                    &&& *final(user_position) == *old(user_position)
                },
            }
        }),
{
    if protocol_state.is_paused {
        return Err(ErrorCode::ProtocolPaused);
    }
    if !collateral_pool.is_active {
        return Err(ErrorCode::CollateralPoolInactive);
    }
    if collateral_pool.collateral_type != collateral_type {
        return Err(ErrorCode::InvalidCollateralType);
    }
    if !collateral_pool.can_accept_deposit(amount) {
        return Err(ErrorCode::DepositExceedsMaximum);
    }
    if user_balance < amount {
        return Err(ErrorCode::InsufficientFunds);
    }

    let usd_value: u64 = match calculate_usd_value(amount, price, decimals) {
        Ok(v) => v,
        Err(e) => {
            return Err(e);
        },
    };

    let new_pool_value: u64 = match collateral_pool.total_value_usd.checked_add(usd_value) {
        Some(v) => v,
        None => {
            return Err(ErrorCode::MathOverflow);
        },
    };

    // A record never touched before is zero-initialized for this user;
    // nothing is written back until every check has passed.
    let fresh: bool = user_position.owner == NO_OWNER;
    let base_sub: Option<CollateralPoolPosition> = if fresh {
        None
    } else {
        user_position.collateral_pool
    };
    let base_deposited: u64 = if fresh {
        0
    } else {
        user_position.collateral_deposited
    };

    let new_sub: CollateralPoolPosition = match &base_sub {
        Some(pos) => {
            if pos.pool == collateral_pool.mint {
                let new_amount: u64 = match pos.amount.checked_add(amount) {
                    Some(v) => v,
                    None => {
                        return Err(ErrorCode::MathOverflow);
                    },
                };
                let new_value: u64 = match pos.value_usd.checked_add(usd_value) {
                    Some(v) => v,
                    None => {
                        return Err(ErrorCode::MathOverflow);
                    },
                };
                CollateralPoolPosition {
                    pool: collateral_pool.mint,
                    amount: new_amount,
                    value_usd: new_value,
                }
            } else {
                // A deposit into a different pool replaces the tracked
                // sub-position.
                CollateralPoolPosition {
                    pool: collateral_pool.mint,
                    amount,
                    value_usd: usd_value,
                }
            }
        },
        None => CollateralPoolPosition { pool: collateral_pool.mint, amount, value_usd: usd_value },
    };

    let new_deposited: u64 = match base_deposited.checked_add(amount) {
        Some(v) => v,
        None => {
            return Err(ErrorCode::MathOverflow);
        },
    };

    let new_total: u64 = match protocol_state.total_collateral_value.checked_add(usd_value) {
        Some(v) => v,
        None => {
            return Err(ErrorCode::MathOverflow);
        },
    };

    if fresh {
        user_position.owner = user;
        user_position.stablecoin_minted = 0;
    }
    collateral_pool.total_deposited = collateral_pool.total_deposited + amount;
    collateral_pool.total_value_usd = new_pool_value;
    user_position.collateral_pool = Some(new_sub);
    user_position.collateral_deposited = new_deposited;
    user_position.last_update_timestamp = now;
    protocol_state.total_collateral_value = new_total;
    protocol_state.collateral_ratio = protocol_state.calculate_collateral_ratio();
    Ok(usd_value)
}

} // verus!
