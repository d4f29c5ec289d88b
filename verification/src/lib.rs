//! A collateralized-debt stablecoin engine.
//!
//! The engine tracks user collateral deposits across per-asset pools, lets
//! users mint a pegged stable asset against that collateral, enforces
//! solvency through a collateral-ratio / health-factor check, liquidates
//! undercollateralized positions, and corrects peg deviation by minting or
//! burning a treasury buffer.
//!
//! Token custody (transfer, mint, burn of the actual token balances), price
//! feed retrieval, and signature verification are external collaborators:
//! every operation here takes the values it needs (balances, a price
//! reading, the current time) as plain arguments, performs all checks and
//! state updates with checked arithmetic, and returns what the external
//! token ledger must then carry out.

pub mod constants;
pub mod error;
pub mod math;
pub mod state;
pub mod instructions;
pub mod laws;
