//! The records the engine operates on: the protocol-wide ledger, the
//! per-asset collateral pools with the per-user positions, and the oracle
//! price readings.

pub mod protocol;
pub mod collateral;
pub mod oracle;
