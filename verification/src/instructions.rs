//! The engine's operations. Each takes the records it touches by
//! exclusive reference together with the external facts it needs (token
//! balances, an oracle price, the current time), performs every check and
//! all arithmetic, and either commits the whole update or returns an
//! error with nothing changed.

pub mod initialize;
pub mod emergency_pause;
pub mod mint_stable;
pub mod burn_stable;
pub mod deposit_collateral;
pub mod withdraw_collateral;
pub mod liquidate;
pub mod rebalance;
pub mod oracle_update;
