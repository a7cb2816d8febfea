//! The messages that the vote token takes and the answers it gives.

use vstd::prelude::*;
use crate::addr::Addr;
use crate::token::{Cw20InstantiateMsg, Logo};

verus! {

#[derive(Debug)]
pub struct InstantiateMsg {
    pub cw20_init_msg: Cw20InstantiateMsg,
    pub max_supply: u128,
    /// The governor; the sender where none is named.
    pub gov: Option<Addr>,
    pub max_minted: u128,
}

#[derive(Debug)]
pub enum ExecuteMsg {
    UpdateConfig { max_minted: Option<u128>, kpt_fund: Option<Addr>, gov: Option<Addr> },
    SetMinters { contracts: Vec<Addr>, is_minter: Vec<bool> },
    /// Mint for an account that the environment has validated.
    Mint { recipient: Addr, amount: u128 },
    /// Burn of an account that the environment has validated.
    Burn { user: Addr, amount: u128 },
    UpdateMarketing {
        project: Option<String>,
        description: Option<String>,
        marketing: Option<String>,
    },
    UploadLogo(Logo),
}

#[derive(Debug)]
pub enum QueryMsg {
    VoteConfig {  },
    IsMinter { address: Addr },
    Checkpoints { account: Addr, pos: u32 },
    NumCheckpoints { account: Addr },
    GetVotes { account: Addr },
    GetPastVotes { account: Addr, block_number: u64 },
    GetPastTotalSupply { block_number: u64 },
}

#[derive(Clone, Copy, Debug, PartialEq, Eq, Structural)]
pub struct GetPastTotalSupplyResponse {
    pub total_supply: u128,
}

#[derive(Clone, Copy, Debug, PartialEq, Eq, Structural)]
pub struct GetPastVotesResponse {
    pub votes: u128,
}

#[derive(Clone, Copy, Debug, PartialEq, Eq, Structural)]
pub struct GetVotesResponse {
    pub votes: u128,
}

#[derive(Debug, PartialEq, Eq)]
pub struct DelegatesResponse {
    pub delegate: Addr,
}

#[derive(Clone, Copy, Debug, PartialEq, Eq, Structural)]
pub struct NumCheckpointsResponse {
    pub num: usize,
}

/// What the fund is told before an account's votes change.
#[derive(Debug, PartialEq, Eq)]
pub enum KptFundMsg {
    RefreshReward { account: Addr },
}

#[derive(Debug, PartialEq, Eq)]
pub struct VoteConfigResponse {
    pub max_supply: u128,
    pub kpt_fund: Addr,
    pub gov: Addr,
    pub max_minted: u128,
    pub total_minted: u128,
}

#[derive(Clone, Copy, Debug, PartialEq, Eq, Structural)]
pub struct CheckpointResponse {
    pub from_block: u64,
    pub votes: u128,
}

#[derive(Clone, Copy, Debug, PartialEq, Eq, Structural)]
pub struct IsMinterResponse {
    pub is_minter: bool,
}

/// What a query answers.
#[derive(Debug)]
pub enum QueryResponse {
    VoteConfig(VoteConfigResponse),
    IsMinter(IsMinterResponse),
    Checkpoint(crate::ve_kpt::state::Checkpoint),
    NumCheckpoints(NumCheckpointsResponse),
    Votes(GetVotesResponse),
    PastVotes(GetPastVotesResponse),
    PastTotalSupply(GetPastTotalSupplyResponse),
}

#[derive(Clone, Copy, Debug, PartialEq, Eq, Structural)]
pub struct MigrateMsg {
}

} // verus!
