//! The KPT token: who may have its ledger mint and burn. The ledger itself
//! is kept elsewhere; what is decided before it is asked stands here.

pub mod contract;
pub mod error;
pub mod handler;
pub mod msg;
pub mod querier;
pub mod state;
