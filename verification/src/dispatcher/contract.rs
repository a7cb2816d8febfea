//! The dispatcher's entry points: creation, the operations by message, the
//! questions by message.

use vstd::prelude::*;
use crate::addr::Addr;
use crate::dispatcher::error::ContractError;
use crate::dispatcher::handler::{add_users, regret_claim, update_config, user_claim, user_regret};
use crate::dispatcher::model::{execute_failure, execute_next};
use crate::model_util::updated;
use crate::dispatcher::msg::{ExecuteMsg, InstantiateMsg, MigrateMsg, QueryMsg, QueryResponse};
use crate::dispatcher::laws::law_step_keeps_index;
use crate::dispatcher::querier::{is_user_info, query_global_infos, query_regret_info,
    query_user_info, query_user_infos, user_info_fits};
use crate::dispatcher::state::{user_page_of, GlobalConfig, GlobalState, RegretInfo, Storage};
use crate::errors::{OverflowError, OverflowOperation, StdError};
use crate::math::Uint256;
use crate::response::Response;
use crate::table::Table;

verus! {

/// The configuration that a creation message asks for; the sender governs
/// where the message names no governor.
pub open spec fn initial_config(sender: &Addr, msg: &InstantiateMsg) -> GlobalConfig {
    GlobalConfig {
        gov: updated(msg.gov, *sender),
        claim_token: msg.claim_token,
        start_time: msg.start_time,
        end_regret_time: msg.end_regret_time,
        regret_token_receiver: msg.regret_token_receiver,
        total_lock_amount: msg.total_lock_amount,
        total_unlock_amount: msg.total_unlock_amount,
        start_lock_period_time: msg.start_lock_period_time,
        duration_per_period: msg.duration_per_period,
        periods: msg.periods,
    }
}

/// The totals before anything is registered.
pub open spec fn initial_state() -> GlobalState {
    GlobalState {
        total_user_unlock_amount: Uint256 { hi: 0, lo: 0 },
        total_user_claimed_unlock_amount: Uint256 { hi: 0, lo: 0 },
        total_user_lock_amount: Uint256 { hi: 0, lo: 0 },
        total_user_claimed_lock_amount: Uint256 { hi: 0, lo: 0 },
    }
}

/// Creates the dispatcher's storage: the configuration as asked for, no
/// beneficiary, an empty pool. A schedule without periods, or with periods
/// that last no time, is refused.
pub fn instantiate(sender: &Addr, msg: InstantiateMsg) -> (r: Result<Storage, StdError>)
    ensures
        r is Ok <==> msg.periods > 0 && msg.duration_per_period > 0,
        r is Ok ==> {
            &&& r->Ok_0.wf()
            &&& r->Ok_0.global_config == initial_config(sender, &msg)
            &&& r->Ok_0.global_state == initial_state()
            &&& r->Ok_0.regret_info == RegretInfo::empty()
            &&& r->Ok_0.user_states@.len() == 0
            &&& r->Ok_0.user_page@.len() == 0
            &&& r->Ok_0@.user_states == Map::<Seq<u8>, crate::dispatcher::state::UserState>::empty()
            &&& r->Ok_0@.user_page == Map::<Seq<u8>, Addr>::empty()
            &&& r->Ok_0@.index_by_account()
        },
        r is Err ==> r->Err_0 is GenericErr && r->Err_0->GenericErr_msg@
            == "periods and duration_per_period must be greater than zero"@,
{
    if msg.periods == 0 || msg.duration_per_period == 0 {
        return Err(
            StdError::generic_err("periods and duration_per_period must be greater than zero"),
        );
    }
    let gov = match msg.gov {
        Some(gov) => gov,
        None => sender.clone(),
    };
    let global_config = GlobalConfig {
        gov,
        claim_token: msg.claim_token,
        start_time: msg.start_time,
        end_regret_time: msg.end_regret_time,
        regret_token_receiver: msg.regret_token_receiver,
        total_lock_amount: msg.total_lock_amount,
        total_unlock_amount: msg.total_unlock_amount,
        start_lock_period_time: msg.start_lock_period_time,
        duration_per_period: msg.duration_per_period,
        periods: msg.periods,
    };
    let global_state = GlobalState {
        total_user_unlock_amount: Uint256::zero(),
        total_user_claimed_unlock_amount: Uint256::zero(),
        total_user_lock_amount: Uint256::zero(),
        total_user_claimed_lock_amount: Uint256::zero(),
    };
    let regret_info = RegretInfo {
        total_unlock_amount: Uint256::zero(),
        total_claimed_unlock_amount: Uint256::zero(),
        last_claimed_period: 0,
        per_lock_amount: Uint256::zero(),
        total_lock_amount: Uint256::zero(),
        total_claimed_lock_amount: Uint256::zero(),
    };
    Ok(
        Storage {
            global_config,
            global_state,
            user_states: Table::new(),
            regret_info,
            user_page: Table::new(),
        },
    )
}

/// Carries out the operation that the message names, for `sender` at
/// `current_time`. A refused operation changes nothing, and no operation
/// files an account of the index under other bytes than its own.
pub fn execute(storage: &mut Storage, current_time: u64, sender: &Addr, msg: ExecuteMsg) -> (r:
    Result<Response, ContractError>)
    requires
        old(storage).wf(),
    ensures
        match execute_failure(&old(storage)@, current_time, sender, &msg) {
            Some(e) => r == Err::<Response, ContractError>(e) && *final(storage) == *old(storage),
            None => r is Ok && final(storage)@ == execute_next(
                &old(storage)@,
                current_time,
                sender,
                &msg,
            ),
        },
        final(storage).wf(),
        old(storage)@.index_by_account() ==> final(storage)@.index_by_account(),
{
    proof {
        if old(storage)@.index_by_account() {
            law_step_keeps_index(&old(storage)@, current_time, sender, &msg);
        }
    }
    match msg {
        ExecuteMsg::UpdateConfig(msg) => update_config(storage, sender, msg),
        ExecuteMsg::AddUser(msg) => add_users(storage, sender, msg),
        ExecuteMsg::UserRegret {  } => user_regret(storage, current_time, sender),
        ExecuteMsg::UserClaim {  } => user_claim(storage, current_time, sender),
        ExecuteMsg::RegretClaim {  } => regret_claim(storage, current_time, sender),
    }
}

/// Answers the question that the message asks, as of `current_time`.
pub fn query(storage: &Storage, current_time: u64, msg: QueryMsg) -> (r: Result<
    QueryResponse,
    StdError,
>)
    requires
        storage.wf(),
    ensures
        match msg {
            QueryMsg::QueryGlobalConfig {  } => {
                &&& r is Ok
                &&& r->Ok_0 is GlobalInfos
                &&& r->Ok_0->GlobalInfos_0.config == storage.global_config
                &&& r->Ok_0->GlobalInfos_0.state == storage.global_state
            },
            QueryMsg::QueryUserInfo { user } => {
                &&& r is Ok <==> user_info_fits(&storage@, current_time, &user)
                &&& r is Ok ==> r->Ok_0 is UserInfo && is_user_info(
                    &storage@,
                    current_time,
                    &user,
                    &r->Ok_0->UserInfo_0,
                )
                &&& r is Err ==> r->Err_0 == (StdError::Overflow {
                    source: OverflowError { operation: OverflowOperation::Mul },
                })
            },
            QueryMsg::QueryRegretInfo {  } => {
                &&& r is Ok
                &&& r->Ok_0 is RegretInfo
                &&& r->Ok_0->RegretInfo_0.info == storage.regret_info
            },
            QueryMsg::QueryUserInfos { start_after, limit } => {
                &&& r is Ok <==> (forall|i: int|
                    0 <= i < user_page_of(storage, start_after, limit).len() ==> user_info_fits(
                        &storage@,
                        current_time,
                        &(#[trigger] user_page_of(storage, start_after, limit)[i]).1,
                    ))
                &&& r is Ok ==> {
                    &&& r->Ok_0 is UserInfos
                    &&& r->Ok_0->UserInfos_0@.len() == user_page_of(storage, start_after, limit).len()
                    &&& forall|i: int|
                        0 <= i < r->Ok_0->UserInfos_0@.len() ==> is_user_info(
                            &storage@,
                            current_time,
                            &user_page_of(storage, start_after, limit)[i].1,
                            &(#[trigger] r->Ok_0->UserInfos_0@[i]),
                        )
                }
                &&& r is Err ==> r->Err_0 == (StdError::Overflow {
                    source: OverflowError { operation: OverflowOperation::Mul },
                })
            },
        },
{
    match msg {
        QueryMsg::QueryGlobalConfig {  } => Ok(QueryResponse::GlobalInfos(query_global_infos(storage))),
        QueryMsg::QueryUserInfo { user } => {
            match query_user_info(storage, current_time, &user) {
                Ok(v) => Ok(QueryResponse::UserInfo(v)),
                Err(e) => Err(e),
            }
        },
        QueryMsg::QueryRegretInfo {  } => Ok(QueryResponse::RegretInfo(query_regret_info(storage))),
        QueryMsg::QueryUserInfos { start_after, limit } => {
            match query_user_infos(storage, current_time, start_after, limit) {
                Ok(v) => Ok(QueryResponse::UserInfos(v)),
                Err(e) => Err(e),
            }
        },
    }
}

/// Moving to a new version of the code changes nothing that is kept.
pub fn migrate(_msg: MigrateMsg) -> (r: Response)
    ensures
        r.messages@.len() == 0,
{
    Response::new()
}

} // verus!
