//! Release of a committed allocation in equal instalments after a lock start,
//! with an early exit that forfeits the allocation into a pool.

pub mod contract;
pub mod error;
pub mod handler;
pub mod laws;
pub mod model;
pub mod msg;
pub mod querier;
pub mod state;
pub mod vesting;
