//! Locking of tokens for points, withdrawal with a penalty before the lock
//! ends, and draws paid for in points.

pub mod contract;
pub mod error;
pub mod handler;
pub mod helper;
pub mod msg;
pub mod querier;
pub mod random_rules;
pub mod state;
