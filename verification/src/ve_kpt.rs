//! A token whose balances are recorded block by block, so that the balance
//! at the end of an earlier block can be asked for. The token ledger itself
//! is kept elsewhere: what is decided before and after it is asked to mint or
//! burn stands here.

pub mod contract;
pub mod error;
pub mod handler;
pub mod msg;
pub mod querier;
pub mod state;
pub mod ve_handler;
pub mod ve_querier;
