//! The instructions of the staking program. Each is one atomic transition
//! on the records that the transaction names: it either returns `Ok` with
//! every effect applied, or an error with nothing changed.

pub mod claim;
pub mod initialize_config;
pub mod stake;
pub mod unstake;
