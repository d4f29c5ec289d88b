//! The error taxonomy of the engine. Every guard failure maps to exactly
//! one variant; no error is silently swallowed, and an operation that
//! returns an error commits no state change.

use vstd::prelude::*;

verus! {

#[derive(Clone, Copy, Debug, PartialEq, Eq, Structural)]
pub enum ErrorCode {
    /// A state-mutating call was made while the protocol is paused.
    ProtocolPaused,
    /// A mint or withdraw would leave the position's health factor below
    /// the protocol minimum.
    InsufficientCollateralRatio,
    /// A deposit was made against a disabled pool.
    CollateralPoolInactive,
    /// The oracle reading is older than the staleness bound.
    StalePriceData,
    /// The oracle reading's confidence interval is too wide.
    LowConfidencePriceData,
    /// The stable asset's market price deviates beyond the peg threshold.
    PegDeviationExceeded,
    /// Liquidation was attempted against a healthy position.
    PositionLiquidatable,
    /// An authority-gated call came from a non-authority caller.
    Unauthorized,
    /// A deposit named a collateral type that does not match the pool.
    InvalidCollateralType,
    /// A deposit would push the pool past its configured maximum.
    DepositExceedsMaximum,
    /// A balance or tracked position is too small for the operation.
    InsufficientFunds,
    /// The peg deviation is within the threshold; nothing to rebalance.
    RebalancingNotRequired,
    /// The oracle reading is marked invalid.
    InvalidOracleConfig,
    /// A checked arithmetic step overflowed or underflowed.
    MathOverflow,
}

} // verus!
