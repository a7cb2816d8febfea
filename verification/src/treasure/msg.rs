//! The messages that the treasure takes and the answers it gives.

use vstd::prelude::*;
use std::collections::HashSet;
use crate::addr::Addr;
use crate::treasure::state::{TreasureConfig, TreasureState, TreasureUserState, UserLockRecord,
    UserMintNftRecord, UserWithdrawRecord};

verus! {

/// What to answer about a user: each part only where it is asked for.
#[derive(Debug)]
pub struct QueryUserInfosMsg {
    pub user_addr: Addr,
    pub query_user_state: bool,
    pub query_lock_records: bool,
    pub query_withdraw_records: bool,
    pub query_mint_nft_records: bool,
    pub start_after: Option<String>,
    pub limit: Option<u32>,
}

/// The fields of the configuration to replace; `None` keeps a field.
#[derive(Debug)]
pub struct TreasureConfigMsg {
    pub gov: Option<Addr>,
    pub lock_token: Option<Addr>,
    pub start_time: Option<u64>,
    pub end_time: Option<u64>,
    pub integral_reward_coefficient: Option<u128>,
    pub lock_duration: Option<u64>,
    pub punish_coefficient: Option<u128>,
    pub mint_nft_cost_integral: Option<u128>,
    pub winning_num: Option<HashSet<u64>>,
    pub mod_num: Option<u64>,
    pub punish_receiver: Option<Addr>,
}

#[derive(Debug)]
pub struct InstantiateMsg {
    pub gov: Option<Addr>,
    pub lock_token: Addr,
    pub start_time: u64,
    pub end_time: u64,
    pub integral_reward_coefficient: u128,
    pub lock_duration: u64,
    pub punish_coefficient: u128,
    pub mint_nft_cost_integral: u128,
    pub winning_num: HashSet<u64>,
    pub mod_num: u64,
    pub punish_receiver: Addr,
}

/// Tokens that arrive from a token ledger: from whom, how many, and what the
/// sender wants done with them, where that could be read.
#[derive(Debug)]
pub struct Cw20ReceiveMsg {
    pub sender: Addr,
    pub amount: u128,
    pub msg: Option<Cw20HookMsg>,
}

#[derive(Debug)]
pub enum ExecuteMsg {
    Receive(Cw20ReceiveMsg),
    UpdateConfig(TreasureConfigMsg),
    UserWithdraw { amount: u128 },
    PreMintNft { mint_num: u64 },
}

#[derive(Debug)]
pub enum QueryMsg {
    QueryConfigInfos {  },
    QueryUserInfos { msg: QueryUserInfosMsg },
}

#[derive(Debug)]
pub struct ConfigInfosResponse {
    pub config: TreasureConfig,
    pub state: TreasureState,
}

#[derive(Debug)]
pub struct UserInfosResponse {
    pub user_state: Option<TreasureUserState>,
    pub lock_records: Option<Vec<UserLockRecord>>,
    pub withdraw_records: Option<Vec<UserWithdrawRecord>>,
    pub mint_nft_records: Option<Vec<UserMintNftRecord>>,
}

#[derive(Clone, Copy, Debug, PartialEq, Eq, Structural)]
pub struct MigrateMsg {
}

/// What the sender of tokens wants done with them.
#[derive(Clone, Copy, Debug, PartialEq, Eq, Structural)]
pub enum Cw20HookMsg {
    UserLockHook {  },
}

/// What a query answers.
#[derive(Debug)]
pub enum QueryResponse {
    ConfigInfos(ConfigInfosResponse),
    UserInfos(UserInfosResponse),
}

} // verus!
