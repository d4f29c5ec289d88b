//! Collateral pools and user positions.

use vstd::prelude::*;
use crate::error::ErrorCode;
use crate::math::{health_factor_of, health_factor, usd_value_of, calculate_usd_value};

verus! {

/// The collateral assets the protocol accepts.
#[derive(Clone, Copy, Debug, PartialEq, Eq, Structural)]
pub enum CollateralType {
    USDC,
    SOL,
    TokenizedSeeds,
}

/// One pool per accepted collateral asset.
#[derive(Clone, Copy, Debug, PartialEq, Eq, Structural)]
pub struct CollateralPool {
    pub collateral_type: CollateralType,
    /// The pool's collateral asset; also the pool's identity, one pool
    /// per asset.
    pub mint: u64,
    /// Vault account holding the deposited collateral.
    pub vault: u64,
    /// Price feed for the pool's asset.
    pub oracle: u64,
    /// Total deposited collateral in native units.
    pub total_deposited: u64,
    /// USD value of the deposited collateral.
    pub total_value_usd: u64,
    /// Health factor below which positions in this pool are liquidatable,
    /// in basis points.
    pub liquidation_threshold: u64,
    /// Cap on `total_deposited`.
    pub max_deposit_amount: u64,
    pub is_active: bool,
}

impl CollateralPool {
    /// Whether a deposit of `amount` stays within the pool's remaining
    /// capacity.
    pub fn can_accept_deposit(&self, amount: u64) -> (r: bool)
        ensures
            r == (self.total_deposited + amount <= self.max_deposit_amount),
    {
        match self.total_deposited.checked_add(amount) {
            Some(total) => total <= self.max_deposit_amount,
            None => false,
        }
    }

    /// Revalues the pool's holdings at a fresh oracle price. On overflow
    /// the pool is left unchanged and `MathOverflow` is reported.
    pub fn update_value(&mut self, price: u64, decimals: u8) -> (r: Result<(), ErrorCode>)
        ensures
            usd_value_of(old(self).total_deposited, price, decimals) <= u64::MAX ==> {
                &&& r is Ok
                &&& *final(self) == (CollateralPool {
                    total_value_usd: usd_value_of(old(self).total_deposited, price, decimals) as u64,
                    ..*old(self)
                })
            },
            usd_value_of(old(self).total_deposited, price, decimals) > u64::MAX ==> {
                &&& r == Err::<(), ErrorCode>(ErrorCode::MathOverflow)
                &&& *final(self) == *old(self)
            },
    {
        match calculate_usd_value(self.total_deposited, price, decimals) {
            Ok(value) => {
                self.total_value_usd = value;
                Ok(())
            },
            Err(e) => Err(e),
        }
    }
}

/// A user's tracked stake in a single collateral pool.
#[derive(Clone, Copy, Debug, PartialEq, Eq, Structural)]
pub struct CollateralPoolPosition {
    /// The pool's identity (its collateral asset).
    pub pool: u64,
    /// Collateral held, in native units.
    pub amount: u64,
    /// USD value recorded for that collateral.
    pub value_usd: u64,
}

/// One record per user. The design tracks at most one collateral-pool
/// sub-position at a time: a deposit into a different pool replaces the
/// tracked sub-position, while `collateral_deposited` keeps accumulating
/// across pools.
#[derive(Clone, Copy, Debug, PartialEq, Eq, Structural)]
pub struct UserPosition {
    pub owner: u64,
    /// Total collateral the user has deposited, in native units,
    /// accumulated across pools.
    pub collateral_deposited: u64,
    /// Outstanding stable debt minted by the user.
    pub stablecoin_minted: u64,
    pub last_update_timestamp: i64,
    /// The single tracked collateral-pool sub-position, if any.
    pub collateral_pool: Option<CollateralPoolPosition>,
}

impl UserPosition {
    /// USD value of the tracked sub-position; zero when none is tracked.
    pub open spec fn pool_collateral_value(&self) -> u64 {
        match self.collateral_pool {
            Some(pos) => pos.value_usd,
            None => 0,
        }
    }

    /// Health factor of this position at the given collateral value.
    pub fn calculate_health_factor(&self, collateral_value: u64) -> (r: u64)
        ensures
            r == health_factor_of(collateral_value, self.stablecoin_minted),
    {
        health_factor(collateral_value, self.stablecoin_minted)
    }

    /// Whether the position's health factor has dropped below the pool's
    /// liquidation threshold.
    pub fn is_liquidatable(&self, liquidation_threshold: u64) -> (r: bool)
        ensures
            r == (health_factor_of(self.pool_collateral_value(), self.stablecoin_minted)
                < liquidation_threshold),
    {
        let collateral_value: u64 = match &self.collateral_pool {
            Some(pos) => pos.value_usd,
            None => 0,
        };
        let hf = self.calculate_health_factor(collateral_value);
        hf < liquidation_threshold
    }
}

} // verus!
