//! Minting of the stable asset against deposited collateral.

use vstd::prelude::*;
use crate::error::ErrorCode;
use crate::math::{collateral_ratio_of, health_factor_of, health_factor};
use crate::state::protocol::ProtocolState;
use crate::state::collateral::UserPosition;

verus! {

/// The full effect of a mint request: either the updated ledger and user
/// position, or the error the request fails with, in check order.
pub open spec fn spec_mint(s: ProtocolState, u: UserPosition, amount: u64, now: i64) -> Result<
    (ProtocolState, UserPosition),
    ErrorCode,
> {
    if s.is_paused {
        Err(ErrorCode::ProtocolPaused)
    } else if u.stablecoin_minted + amount > u64::MAX {
        Err(ErrorCode::MathOverflow)
    } else {
        let new_debt = (u.stablecoin_minted + amount) as u64;
        if health_factor_of(u.pool_collateral_value(), new_debt) < s.min_collateral_ratio {
            Err(ErrorCode::InsufficientCollateralRatio)
        } else if s.total_stablecoin_supply + amount > u64::MAX {
            Err(ErrorCode::MathOverflow)
        } else {
            let new_supply = (s.total_stablecoin_supply + amount) as u64;
            Ok(
                (
                    ProtocolState {
                        total_stablecoin_supply: new_supply,
                        collateral_ratio: collateral_ratio_of(
                            s.total_collateral_value,
                            new_supply,
                        ) as u64,
                        ..s
                    },
                    UserPosition { stablecoin_minted: new_debt, last_update_timestamp: now, ..u },
                ),
            )
        }
    }
}

/// Mints `amount` of the stable asset to the user. The position's
/// post-mint health factor must stay at or above the protocol minimum;
/// the boundary value itself, as computed by integer division, is
/// accepted. On success the caller must have the external token ledger
/// mint `amount` to the user under the protocol authority.
pub fn mint_stable(
    protocol_state: &mut ProtocolState,
    user_position: &mut UserPosition,
    amount: u64,
    now: i64,
) -> (r: Result<(), ErrorCode>)
    ensures
        ({
            let t = spec_mint(*old(protocol_state), *old(user_position), amount, now);
            match t {
                Ok(ok) => {
                    &&& r is Ok
                    &&& *final(protocol_state) == ok.0
                    &&& *final(user_position) == ok.1
                },
                Err(e) => {
                    &&& r == Err::<(), ErrorCode>(e)
                    &&& *final(protocol_state) == *old(protocol_state)
                    &&& *final(user_position) == *old(user_position)
                },
            }
        }),
{
    if protocol_state.is_paused {
        return Err(ErrorCode::ProtocolPaused);
    }

    let total_collateral_value: u64 = match &user_position.collateral_pool {
        Some(pos) => pos.value_usd,
        None => 0,
    };

    let new_stablecoin_amount: u64 = match user_position.stablecoin_minted.checked_add(amount) {
        Some(v) => v,
        None => {
            return Err(ErrorCode::MathOverflow);
        },
    };

    let new_health_factor = health_factor(total_collateral_value, new_stablecoin_amount);
    if new_health_factor < protocol_state.min_collateral_ratio {
        return Err(ErrorCode::InsufficientCollateralRatio);
    }

    let new_supply: u64 = match protocol_state.total_stablecoin_supply.checked_add(amount) {
        Some(v) => v,
        None => {
            return Err(ErrorCode::MathOverflow);
        },
    };

    user_position.stablecoin_minted = new_stablecoin_amount;
    user_position.last_update_timestamp = now;
    protocol_state.total_stablecoin_supply = new_supply;
    protocol_state.collateral_ratio = protocol_state.calculate_collateral_ratio();
    Ok(())
}

} // verus!
