//! Burning of the stable asset to repay debt.

use vstd::prelude::*;
use crate::error::ErrorCode;
use crate::math::collateral_ratio_of;
use crate::state::protocol::ProtocolState;
use crate::state::collateral::UserPosition;

verus! {

/// The full effect of a burn request: either the updated ledger and user
/// position, or the error the request fails with, in check order.
/// `user_balance` is the user's stable token balance on the external
/// ledger.
pub open spec fn spec_burn(
    s: ProtocolState,
    u: UserPosition,
    amount: u64,
    user_balance: u64,
    now: i64,
) -> Result<(ProtocolState, UserPosition), ErrorCode> {
    if s.is_paused {
        Err(ErrorCode::ProtocolPaused)
    } else if u.stablecoin_minted < amount {
        Err(ErrorCode::InsufficientFunds)
    } else if user_balance < amount {
        Err(ErrorCode::InsufficientFunds)
    } else if s.total_stablecoin_supply < amount {
        Err(ErrorCode::MathOverflow)
    } else {
        let new_supply = (s.total_stablecoin_supply - amount) as u64;
        Ok(
            (
                ProtocolState {
                    total_stablecoin_supply: new_supply,
                    collateral_ratio: collateral_ratio_of(
                        s.total_collateral_value,
                        new_supply,
                    ) as u64,
                    ..s
                },
                UserPosition {
                    stablecoin_minted: (u.stablecoin_minted - amount) as u64,
                    last_update_timestamp: now,
                    ..u
                },
            ),
        )
    }
}

/// Burns `amount` of the stable asset from the user, reducing their debt.
/// The user must have minted at least `amount` and hold at least `amount`
/// on the external token ledger. On success the caller must have the
/// external token ledger burn `amount` from the user.
pub fn burn_stable(
    protocol_state: &mut ProtocolState,
    user_position: &mut UserPosition,
    amount: u64,
    user_balance: u64,
    now: i64,
) -> (r: Result<(), ErrorCode>)
    ensures
        ({
            let t = spec_burn(*old(protocol_state), *old(user_position), amount, user_balance, now);
            match t {
                Ok(ok) => {
                    &&& r is Ok
                    &&& *final(protocol_state) == ok.0
                    &&& *final(user_position) == ok.1
                },
                Err(e) => {
                    &&& r == Err::<(), ErrorCode>(e)
                    &&& *final(protocol_state) == *old(protocol_state)
                    &&& *final(user_position) == *old(user_position)
                },
            }
        }),
{
    if protocol_state.is_paused {
        return Err(ErrorCode::ProtocolPaused);
    }
    if user_position.stablecoin_minted < amount {
        return Err(ErrorCode::InsufficientFunds);
    }
    if user_balance < amount {
        return Err(ErrorCode::InsufficientFunds);
    }
    let new_supply: u64 = match protocol_state.total_stablecoin_supply.checked_sub(amount) {
        Some(v) => v,
        None => {
            return Err(ErrorCode::MathOverflow);
        },
    };

    user_position.stablecoin_minted = user_position.stablecoin_minted - amount;
    user_position.last_update_timestamp = now;
    protocol_state.total_stablecoin_supply = new_supply;
    protocol_state.collateral_ratio = protocol_state.calculate_collateral_ratio();
    Ok(())
}

} // verus!
