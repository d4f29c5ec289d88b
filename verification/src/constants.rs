//! Protocol-wide configuration constants, expressed in basis points
//! (1 bps = 1/100th of a percent; 10000 bps = 100%) unless noted.

use vstd::prelude::*;

verus! {

/// Minimum collateral ratio a position must keep at mint and withdraw time:
/// 15000 bps = 150%.
pub const MIN_COLLATERAL_RATIO: u64 = 15000;

/// Peg deviation above which a rebalance is carried out: 200 bps = 2%.
pub const PEG_DEVIATION_THRESHOLD: u64 = 200;

/// Health factor below which a position may be liquidated: 12000 bps = 120%.
/// Intentionally tighter than `MIN_COLLATERAL_RATIO`, leaving a safety
/// margin between the mint-time check and liquidation.
pub const LIQUIDATION_THRESHOLD: u64 = 12000;

/// Scale of all ratio arithmetic: 10000 bps = 100%.
pub const BASIS_POINTS: u64 = 10000;

/// Decimals of the USD-denominated stable asset.
pub const USD_DECIMALS: u8 = 6;

/// Target market price of the stable asset: $1.00 with `USD_DECIMALS`
/// decimals.
pub const TARGET_PEG_PRICE: u64 = 1_000_000;

/// Maximum age of an oracle price reading, in seconds.
pub const MAX_PRICE_STALENESS: i64 = 300;

/// Maximum confidence interval of an oracle reading, as a fraction of the
/// price in basis points: 500 bps = 5%.
pub const MAX_PRICE_DEVIATION: u64 = 500;

/// Account identifier that marks a user position not yet initialized.
pub const NO_OWNER: u64 = 0;

} // verus!
