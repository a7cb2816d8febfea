//! The messages that the KPT token takes and the answers it gives.

use vstd::prelude::*;
use crate::addr::Addr;
use crate::token::{Cw20InstantiateMsg, LedgerMsg, LedgerQuery};

verus! {

#[derive(Debug)]
pub struct InstantiateMsg {
    pub cw20_init_msg: Cw20InstantiateMsg,
    pub max_supply: u128,
    /// The governor; the sender where none is named.
    pub gov: Option<Addr>,
}

#[derive(Debug)]
pub enum ExecuteMsg {
    UpdateConfig { kpt_fund: Option<Addr>, gov: Option<Addr>, kpt_distribute: Option<Addr> },
    /// Mint for an account that the environment has validated.
    Mint { recipient: Addr, amount: u128, contract: Option<String>, msg: Option<Vec<u8>> },
    /// Burn of an account that the environment has validated.
    Burn { user: Addr, amount: u128 },
    /// What only concerns the ledger.
    Ledger(LedgerMsg),
}

#[derive(Debug)]
pub enum QueryMsg {
    KptConfig {  },
    /// What only concerns the ledger.
    Ledger(LedgerQuery),
}

/// What the fund is told before an account's balance changes.
#[derive(Debug, PartialEq, Eq)]
pub enum KptFundMsg {
    RefreshReward { user: Addr },
}

#[derive(Debug, PartialEq, Eq)]
pub struct KptConfigResponse {
    pub max_supply: u128,
    pub kpt_fund: Addr,
    pub kpt_distribute: Addr,
    pub gov: Addr,
}

#[derive(Clone, Copy, Debug, PartialEq, Eq, Structural)]
pub struct MigrateMsg {
}

} // verus!
