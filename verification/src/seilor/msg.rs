//! The messages that the Seilor token takes and the answers it gives.

use vstd::prelude::*;
use crate::addr::Addr;
use crate::token::{Cw20InstantiateMsg, LedgerMsg, LedgerQuery};

verus! {

#[derive(Debug)]
pub struct InstantiateMsg {
    pub cw20_init_msg: Cw20InstantiateMsg,
    pub max_supply: u128,
    /// The governor; the sender where none is named.
    pub gov: Option<Addr>,
}

#[derive(Debug)]
pub enum ExecuteMsg {
    UpdateConfig { fund: Option<Addr>, gov: Option<Addr>, distribute: Option<Addr> },
    /// Mint for an account that the environment has validated.
    Mint { recipient: Addr, amount: u128, contract: Option<String>, msg: Option<Vec<u8>> },
    /// What only concerns the ledger.
    Ledger(LedgerMsg),
}

#[derive(Debug)]
pub enum QueryMsg {
    SeilorConfig {  },
    /// What only concerns the ledger.
    Ledger(LedgerQuery),
}

/// What the fund is told before an account's balance changes.
#[derive(Debug, PartialEq, Eq)]
pub enum SeilorFundMsg {
    RefreshReward { user: Addr },
}

#[derive(Debug, PartialEq, Eq)]
pub struct SeilorConfigResponse {
    pub max_supply: u128,
    pub fund: Addr,
    pub distribute: Addr,
    pub gov: Addr,
}

#[derive(Clone, Copy, Debug, PartialEq, Eq, Structural)]
pub struct MigrateMsg {
}

} // verus!
