//! The authority's pause switch. While paused, deposit, withdraw, mint,
//! burn, liquidate and rebalance all fail with `ProtocolPaused`; unpausing
//! itself is always permitted to the authority.

use vstd::prelude::*;
use crate::error::ErrorCode;
use crate::state::protocol::ProtocolState;

verus! {

/// The full effect of a pause request.
pub open spec fn spec_emergency_pause(s: ProtocolState, caller: u64, pause: bool) -> Result<
    ProtocolState,
    ErrorCode,
> {
    if caller != s.authority {
        Err(ErrorCode::Unauthorized)
    } else {
        Ok(ProtocolState { is_paused: pause, ..s })
    }
}

/// Sets the pause flag. Only the protocol authority may call this.
pub fn emergency_pause(protocol_state: &mut ProtocolState, caller: u64, pause: bool) -> (r: Result<
    (),
    ErrorCode,
>)
    ensures
        ({
            let t = spec_emergency_pause(*old(protocol_state), caller, pause);
            match t {
                Ok(ok) => r is Ok && *final(protocol_state) == ok,
                Err(e) => r == Err::<(), ErrorCode>(e) && *final(protocol_state) == *old(
                    protocol_state,
                ),
            }
        }),
{
    if caller != protocol_state.authority {
        return Err(ErrorCode::Unauthorized);
    }
    protocol_state.is_paused = pause;
    Ok(())
}

} // verus!
