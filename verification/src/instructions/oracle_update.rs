//! Creation of collateral pools and the oracle-gated revaluation of a
//! pool at a fresh price reading.

use vstd::prelude::*;
use crate::constants::{LIQUIDATION_THRESHOLD, MAX_PRICE_STALENESS, MAX_PRICE_DEVIATION};
use crate::error::ErrorCode;
use crate::math::usd_value_of;
use crate::state::protocol::ProtocolState;
use crate::state::collateral::{CollateralPool, CollateralType};
use crate::state::oracle::PriceData;

verus! {

/// The pool a creation request yields when the caller is the authority.
pub open spec fn spec_new_collateral_pool(
    collateral_type: CollateralType,
    mint: u64,
    vault: u64,
    oracle: u64,
    max_deposit: u64,
) -> CollateralPool {
    CollateralPool {
        collateral_type,
        mint,
        vault,
        oracle,
        total_deposited: 0,
        total_value_usd: 0,
        liquidation_threshold: LIQUIDATION_THRESHOLD,
        max_deposit_amount: max_deposit,
        is_active: true,
    }
}

/// Creates a pool for a collateral asset: zero totals, the default
/// liquidation threshold, active. Only the protocol authority may call
/// this.
pub fn create_collateral_pool(
    protocol_state: &ProtocolState,
    caller: u64,
    collateral_type: CollateralType,
    mint: u64,
    vault: u64,
    oracle: u64,
    max_deposit: u64,
) -> (r: Result<CollateralPool, ErrorCode>)
    ensures
        caller != protocol_state.authority ==> r == Err::<CollateralPool, ErrorCode>(
            ErrorCode::Unauthorized,
        ),
        caller == protocol_state.authority ==> r == Ok::<CollateralPool, ErrorCode>(
            spec_new_collateral_pool(collateral_type, mint, vault, oracle, max_deposit),
        ),
{
    if caller != protocol_state.authority {
        return Err(ErrorCode::Unauthorized);
    }
    Ok(
        CollateralPool {
            collateral_type,
            mint,
            vault,
            oracle,
            total_deposited: 0,
            total_value_usd: 0,
            liquidation_threshold: LIQUIDATION_THRESHOLD,
            max_deposit_amount: max_deposit,
            is_active: true,
        },
    )
}

/// The oracle gateway's verdict on a price reading at time `now`: the
/// reading must be marked valid, at most `MAX_PRICE_STALENESS` seconds
/// old, and carry a confidence interval of at most `MAX_PRICE_DEVIATION`
/// basis points of the price.
pub open spec fn spec_validate_price_data(price_data: PriceData, now: i64) -> Result<
    (),
    ErrorCode,
> {
    if !price_data.is_valid {
        Err(ErrorCode::InvalidOracleConfig)
    } else if now - price_data.timestamp > MAX_PRICE_STALENESS {
        Err(ErrorCode::StalePriceData)
    } else if !price_data.spec_has_high_confidence(MAX_PRICE_DEVIATION) {
        Err(ErrorCode::LowConfidencePriceData)
    } else {
        Ok(())
    }
}

/// Gates a price reading on validity, freshness and confidence. A pure
/// check: no state is touched.
pub fn validate_price_data(price_data: &PriceData, now: i64) -> (r: Result<(), ErrorCode>)
    ensures
        r == spec_validate_price_data(*price_data, now),
{
    if !price_data.is_valid {
        return Err(ErrorCode::InvalidOracleConfig);
    }
    if price_data.is_stale(now, MAX_PRICE_STALENESS) {
        return Err(ErrorCode::StalePriceData);
    }
    if !price_data.has_high_confidence(MAX_PRICE_DEVIATION) {
        return Err(ErrorCode::LowConfidencePriceData);
    }
    Ok(())
}

/// The full effect of a pool revaluation: either the pool revalued at the
/// reading's price, or the error the request fails with, in check order.
pub open spec fn spec_update_oracle_price(
    p: CollateralPool,
    price_data: PriceData,
    decimals: u8,
    now: i64,
) -> Result<CollateralPool, ErrorCode> {
    match spec_validate_price_data(price_data, now) {
        Err(e) => Err(e),
        Ok(_) => {
            if usd_value_of(p.total_deposited, price_data.price, decimals) > u64::MAX {
                Err(ErrorCode::MathOverflow)
            } else {
                Ok(
                    CollateralPool {
                        total_value_usd: usd_value_of(
                            p.total_deposited,
                            price_data.price,
                            decimals,
                        ) as u64,
                        ..p
                    },
                )
            }
        },
    }
}

/// Revalues a pool's holdings at a fresh oracle reading, after gating the
/// reading on validity, freshness and confidence. `decimals` is the pool
/// asset's decimal count.
pub fn update_oracle_price(
    collateral_pool: &mut CollateralPool,
    price_data: &PriceData,
    decimals: u8,
    now: i64,
) -> (r: Result<(), ErrorCode>)
    ensures
        ({
            let t = spec_update_oracle_price(*old(collateral_pool), *price_data, decimals, now);
            match t {
                Ok(ok) => r is Ok && *final(collateral_pool) == ok,
                Err(e) => r == Err::<(), ErrorCode>(e) && *final(collateral_pool) == *old(
                    collateral_pool,
                ),
            }
        }),
{
    match validate_price_data(price_data, now) {
        Ok(_) => (),
        Err(e) => {
            return Err(e);
        },
    }
    collateral_pool.update_value(price_data.price, decimals)
}

} // verus!
