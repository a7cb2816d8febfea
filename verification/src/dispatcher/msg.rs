//! The messages that the dispatcher takes and the answers it gives.

use vstd::prelude::*;
use crate::addr::Addr;
use crate::dispatcher::state::{GlobalConfig, GlobalState, RegretInfo, UserState};
use crate::math::Uint256;

verus! {

/// The fields of the configuration to replace; `None` keeps a field.
#[derive(Debug)]
pub struct UpdateGlobalConfigMsg {
    pub gov: Option<Addr>,
    pub claim_token: Option<Addr>,
    pub start_time: Option<u64>,
    pub end_regret_time: Option<u64>,
    pub regret_token_receiver: Option<Addr>,
    pub total_lock_amount: Option<Uint256>,
    pub total_unlock_amount: Option<Uint256>,
}

/// The registration of one beneficiary.
#[derive(Debug)]
pub struct AddUserMsg {
    pub user: Addr,
    pub unlock_amount: Uint256,
    pub lock_amount: Uint256,
    pub replace: bool,
}

#[derive(Debug)]
pub struct InstantiateMsg {
    pub gov: Option<Addr>,
    pub claim_token: Addr,
    pub start_time: u64,
    pub end_regret_time: u64,
    pub regret_token_receiver: Addr,
    pub total_lock_amount: Uint256,
    pub total_unlock_amount: Uint256,
    pub start_lock_period_time: u64,
    pub duration_per_period: u64,
    pub periods: u64,
}

#[derive(Debug)]
pub enum ExecuteMsg {
    UpdateConfig(UpdateGlobalConfigMsg),
    AddUser(Vec<AddUserMsg>),
    UserRegret {  },
    UserClaim {  },
    RegretClaim {  },
}

#[derive(Debug)]
pub enum QueryMsg {
    QueryGlobalConfig {  },
    QueryUserInfo { user: Addr },
    QueryRegretInfo {  },
    QueryUserInfos { start_after: Option<Addr>, limit: Option<u32> },
}

#[derive(Debug)]
pub struct GlobalInfosResponse {
    pub config: GlobalConfig,
    pub state: GlobalState,
}

/// A beneficiary's record with what it could claim now.
#[derive(Debug)]
pub struct UserInfoResponse {
    pub state: UserState,
    pub current_period: u64,
    pub claimable_lock_amount: Uint256,
    pub claimable_unlock_amount: Uint256,
}

#[derive(Debug)]
pub struct RegretInfoResponse {
    pub info: RegretInfo,
}

/// What a query answers.
#[derive(Debug)]
pub enum QueryResponse {
    GlobalInfos(GlobalInfosResponse),
    UserInfo(UserInfoResponse),
    RegretInfo(RegretInfoResponse),
    UserInfos(Vec<UserInfoResponse>),
}

#[derive(Clone, Copy, Debug, PartialEq, Eq, Structural)]
pub struct MigrateMsg {
}

} // verus!
