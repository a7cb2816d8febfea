//! The treasure's entry points: creation, the operations by message, the
//! questions by message.

use vstd::prelude::*;
use crate::addr::Addr;
use crate::model_util::updated;
use crate::response::Response;
use crate::table::Table;
use crate::treasure::error::ContractError;
use crate::treasure::handler::{mint_ensures, pre_mint_nft, receive_cw20, receive_ensures,
    update_config, update_config_ensures, user_withdraw, withdraw_ensures};
use crate::treasure::msg::{ExecuteMsg, InstantiateMsg, MigrateMsg, QueryMsg, QueryResponse};
use crate::treasure::querier::{query_config_infos, query_user_infos, user_infos_ensures};
use crate::treasure::random_rules::Env;
use crate::treasure::state::{same_config, Storage, TreasureConfig, TreasureState};

verus! {

/// Creates the treasure's storage: the configuration as asked for, with the
/// sender as governor where none is named; no user, no record, all totals
/// zero.
pub fn instantiate(sender: &Addr, msg: InstantiateMsg) -> (r: Storage)
    ensures
        r.treasure_config == (TreasureConfig {
            gov: updated(msg.gov, *sender),
            lock_token: msg.lock_token,
            start_time: msg.start_time,
            end_time: msg.end_time,
            integral_reward_coefficient: msg.integral_reward_coefficient,
            lock_duration: msg.lock_duration,
            punish_coefficient: msg.punish_coefficient,
            mint_nft_cost_integral: msg.mint_nft_cost_integral,
            winning_num: msg.winning_num,
            mod_num: msg.mod_num,
            punish_receiver: msg.punish_receiver,
        }),
        r.treasure_state == (TreasureState {
            current_locked_amount: 0,
            current_integral_amount: 0,
            total_locked_amount: 0,
            total_withdraw_amount: 0,
            total_punish_amount: 0,
            total_win_nft_num: 0,
            total_lose_nft_num: 0,
        }),
        r.record_index == 0,
        r.treasure_user_state@.len() == 0,
        r.lock_records@.len() == 0,
        r.withdraw_records@.len() == 0,
        r.mint_nft_records@.len() == 0,
{
    let gov = match msg.gov {
        Some(gov) => gov,
        None => sender.clone(),
    };
    let config = TreasureConfig {
        gov,
        lock_token: msg.lock_token,
        start_time: msg.start_time,
        end_time: msg.end_time,
        integral_reward_coefficient: msg.integral_reward_coefficient,
        lock_duration: msg.lock_duration,
        punish_coefficient: msg.punish_coefficient,
        mint_nft_cost_integral: msg.mint_nft_cost_integral,
        winning_num: msg.winning_num,
        mod_num: msg.mod_num,
        punish_receiver: msg.punish_receiver,
    };
    let state = TreasureState {
        current_locked_amount: 0,
        current_integral_amount: 0,
        total_locked_amount: 0,
        total_withdraw_amount: 0,
        total_punish_amount: 0,
        total_win_nft_num: 0,
        total_lose_nft_num: 0,
    };
    Storage {
        treasure_config: config,
        treasure_state: state,
        treasure_user_state: Table::new(),
        record_index: 0,
        lock_records: Table::new(),
        withdraw_records: Table::new(),
        mint_nft_records: Table::new(),
    }
}

/// Carries out the operation that the message names, for `sender` in the
/// block and transaction that `env` tells of. A refused operation changes
/// nothing.
pub fn execute(storage: &mut Storage, env: &Env, sender: &Addr, msg: ExecuteMsg) -> (r: Result<
    Response,
    ContractError,
>)
    ensures
        match msg {
            ExecuteMsg::Receive(m) => receive_ensures(
                old(storage),
                final(storage),
                &r,
                env.spec_seconds(),
                sender,
                &m,
            ),
            ExecuteMsg::UpdateConfig(m) => update_config_ensures(
                old(storage),
                final(storage),
                &r,
                sender,
                &m,
            ),
            ExecuteMsg::UserWithdraw { amount } => withdraw_ensures(
                old(storage),
                final(storage),
                &r,
                env.spec_seconds(),
                sender,
                amount,
            ),
            ExecuteMsg::PreMintNft { mint_num } => mint_ensures(
                old(storage),
                final(storage),
                &r,
                env,
                sender,
                mint_num,
            ),
        },
{
    match msg {
        ExecuteMsg::Receive(msg) => receive_cw20(storage, env.seconds(), sender, msg),
        ExecuteMsg::UpdateConfig(msg) => update_config(storage, sender, msg),
        ExecuteMsg::UserWithdraw { amount } => user_withdraw(storage, env.seconds(), sender, amount),
        ExecuteMsg::PreMintNft { mint_num } => pre_mint_nft(storage, env, sender, mint_num),
    }
}

/// Answers the question that the message asks: what `query_config_infos` or
/// `query_user_infos` answers.
pub fn query(storage: &Storage, msg: QueryMsg) -> (r: QueryResponse)
    ensures
        match msg {
            QueryMsg::QueryConfigInfos {  } => {
                &&& r is ConfigInfos
                &&& same_config(&r->ConfigInfos_0.config, &storage.treasure_config)
                &&& r->ConfigInfos_0.state == storage.treasure_state
            },
            QueryMsg::QueryUserInfos { msg } => r is UserInfos && user_infos_ensures(
                storage,
                &msg,
                &r->UserInfos_0,
            ),
        },
{
    match msg {
        QueryMsg::QueryConfigInfos {  } => QueryResponse::ConfigInfos(query_config_infos(storage)),
        QueryMsg::QueryUserInfos { msg } => QueryResponse::UserInfos(query_user_infos(storage, msg)),
    }
}

/// Moving to a new version of the code changes nothing that is kept.
pub fn migrate(_msg: MigrateMsg) -> (r: Response)
    ensures
        r.messages@.len() == 0,
{
    Response::new()
}

} // verus!
