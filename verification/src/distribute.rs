//! Release of allocations under named rules: a lump at the start and a
//! linear accrual between two times, minted to the rule's owner on claim.

pub mod contract;
pub mod error;
pub mod handler;
pub mod helper;
pub mod laws;
pub mod model;
pub mod msg;
pub mod querier;
pub mod state;
pub mod vesting;
