//! The vote token's entry points: creation, the operations by message, the
//! questions by message.

use vstd::prelude::*;
use crate::addr::Addr;
use crate::response::Response;
use crate::errors::StdError;
use crate::model_util::updated;
use crate::table::Table;
use crate::token::{prepare, prepared, Cw20InstantiateMsg, Logo};
use crate::ve_kpt::error::ContractError;
use crate::ve_kpt::handler::{burn, burn_ensures, mint, mint_ensures, set_minters,
    set_minters_ensures, update_config, update_config_ensures, BurnOrder, MintOrder};
use crate::ve_kpt::msg::{ExecuteMsg, InstantiateMsg, MigrateMsg, QueryMsg, QueryResponse};
use crate::ve_kpt::querier::{query_is_minter, query_vote_config};
use crate::ve_kpt::state::{in_block_order, votes_at, Checkpoint, Storage, VoteConfig, VoteInfo};
use crate::ve_kpt::ve_handler::last_votes;
use crate::ve_kpt::ve_querier::{checkpoints, get_past_total_supply, get_past_votes, get_votes,
    num_checkpoints};

verus! {

/// What is left for the environment to do after an operation.
#[derive(Debug)]
pub enum Action {
    /// Nothing.
    Done,
    /// Have the ledger mint, then record the votes.
    Mint(MintOrder),
    /// Have the ledger burn, then record the votes.
    Burn(BurnOrder),
    /// Hand the marketing data on to the ledger.
    UpdateMarketing { project: Option<String>, description: Option<String>, marketing: Option<String> },
    /// Hand the logo on to the ledger.
    UploadLogo(Logo),
}

/// Creates the vote token's storage and prepares the creation of its ledger:
/// the contract itself mints, up to the largest supply. A ledger that is to
/// start with balances is refused.
pub fn instantiate(contract: &Addr, sender: &Addr, msg: InstantiateMsg) -> (r: Result<
    (Storage, Cw20InstantiateMsg),
    ContractError,
>)
    ensures
        msg.cw20_init_msg.initial_balances@.len() > 0 ==> r == Err::<
            (Storage, Cw20InstantiateMsg),
            ContractError,
        >(ContractError::UnableInitialBalances {  }),
        msg.cw20_init_msg.initial_balances@.len() == 0 ==> {
            &&& r is Ok
            &&& r->Ok_0.0.vote_config.max_supply == msg.max_supply
            &&& r->Ok_0.0.vote_config.kpt_fund@.len() == 0
            &&& r->Ok_0.0.vote_config.gov == updated(msg.gov, *sender)
            &&& r->Ok_0.0.vote_config.max_minted == msg.max_minted
            &&& r->Ok_0.0.vote_config.total_minted == 0
            &&& r->Ok_0.0.check_points@.len() == 0
            &&& r->Ok_0.0.minters@.len() == 0
            &&& r->Ok_0.0.vote_info.total_supply_checkpoints@.len() == 0
            &&& prepared(
                &msg.cw20_init_msg,
                &r->Ok_0.1,
                contract,
                msg.max_supply,
                &r->Ok_0.0.vote_config.gov,
            )
        },
{
    if msg.cw20_init_msg.initial_balances.len() > 0 {
        return Err(ContractError::UnableInitialBalances {  });
    }
    let gov = match msg.gov {
        Some(gov) => gov,
        None => sender.clone(),
    };
    let cw20_instantiate_msg = prepare(msg.cw20_init_msg, contract, msg.max_supply, &gov);
    proof {
        reveal_strlit("");
    }
    let vote_config = VoteConfig {
        max_supply: msg.max_supply,
        kpt_fund: Addr::unchecked(""),
        gov,
        max_minted: msg.max_minted,
        total_minted: 0,
    };
    Ok(
        (
            Storage {
                vote_config,
                check_points: Table::new(),
                vote_info: VoteInfo { total_supply_checkpoints: Vec::new() },
                minters: Table::new(),
            },
            cw20_instantiate_msg,
        ),
    )
}

/// The result of an operation that leaves nothing to do, as an action.
pub open spec fn done(r: &Result<Action, ContractError>) -> Result<(), ContractError> {
    match r {
        Ok(_) => Ok(()),
        Err(e) => Err(*e),
    }
}

/// Decides the operation that the message names, for `sender`: what
/// `update_config`, `set_minters`, `mint` or `burn` decides; what only
/// concerns the ledger is handed on.
pub fn execute(storage: &mut Storage, sender: &Addr, msg: ExecuteMsg) -> (r: Result<
    Action,
    ContractError,
>)
    ensures
        match msg {
            ExecuteMsg::UpdateConfig { max_minted, kpt_fund, gov } => {
                &&& r is Ok ==> r->Ok_0 is Done
                &&& update_config_ensures(
                    old(storage),
                    final(storage),
                    &done(&r),
                    sender,
                    max_minted,
                    kpt_fund,
                    gov,
                )
            },
            ExecuteMsg::SetMinters { contracts, is_minter } => {
                &&& r is Ok ==> r->Ok_0 is Done
                &&& set_minters_ensures(
                    old(storage),
                    final(storage),
                    &done(&r),
                    sender,
                    contracts@,
                    is_minter@,
                )
            },
            ExecuteMsg::Mint { recipient, amount } => {
                &&& r is Ok ==> r->Ok_0 is Mint
                &&& mint_ensures(
                    old(storage),
                    final(storage),
                    &(match r {
                        Ok(action) => Ok(action->Mint_0),
                        Err(e) => Err(e),
                    }),
                    sender,
                    &recipient,
                    amount,
                )
            },
            ExecuteMsg::Burn { user, amount } => {
                &&& r is Ok ==> r->Ok_0 is Burn
                &&& *final(storage) == *old(storage)
                &&& burn_ensures(
                    old(storage),
                    &(match r {
                        Ok(action) => Ok(action->Burn_0),
                        Err(e) => Err(e),
                    }),
                    sender,
                    &user,
                    amount,
                )
            },
            ExecuteMsg::UpdateMarketing { project, description, marketing } => {
                &&& r is Ok
                &&& r->Ok_0 is UpdateMarketing
                &&& r->Ok_0->UpdateMarketing_project == project
                &&& r->Ok_0->UpdateMarketing_description == description
                &&& r->Ok_0->UpdateMarketing_marketing == marketing
                &&& *final(storage) == *old(storage)
            },
            ExecuteMsg::UploadLogo(logo) => {
                &&& r is Ok
                &&& r->Ok_0 is UploadLogo
                &&& r->Ok_0->UploadLogo_0 == logo
                &&& *final(storage) == *old(storage)
            },
        },
{
    match msg {
        ExecuteMsg::UpdateConfig { max_minted, kpt_fund, gov } => {
            match update_config(storage, sender, max_minted, kpt_fund, gov) {
                Ok(_) => Ok(Action::Done),
                Err(e) => Err(e),
            }
        },
        ExecuteMsg::SetMinters { contracts, is_minter } => {
            match set_minters(storage, sender, contracts, is_minter) {
                Ok(_) => Ok(Action::Done),
                Err(e) => Err(e),
            }
        },
        ExecuteMsg::Mint { recipient, amount } => {
            match mint(storage, sender, &recipient, amount) {
                Ok(order) => Ok(Action::Mint(order)),
                Err(e) => Err(e),
            }
        },
        ExecuteMsg::Burn { user, amount } => {
            match burn(storage, sender, &user, amount) {
                Ok(order) => Ok(Action::Burn(order)),
                Err(e) => Err(e),
            }
        },
        ExecuteMsg::UpdateMarketing { project, description, marketing } => Ok(
            Action::UpdateMarketing { project, description, marketing },
        ),
        ExecuteMsg::UploadLogo(logo) => Ok(Action::UploadLogo(logo)),
    }
}

/// Answers the question that the message asks, as of the block of height
/// `current_height`.
pub fn query(storage: &Storage, current_height: u64, msg: QueryMsg) -> (r: Result<
    QueryResponse,
    StdError,
>)
    ensures
        match msg {
            QueryMsg::VoteConfig {  } => {
                &&& r is Ok
                &&& r->Ok_0 is VoteConfig
                &&& r->Ok_0->VoteConfig_0.max_supply == storage.vote_config.max_supply
                &&& r->Ok_0->VoteConfig_0.kpt_fund == storage.vote_config.kpt_fund
                &&& r->Ok_0->VoteConfig_0.gov == storage.vote_config.gov
                &&& r->Ok_0->VoteConfig_0.max_minted == storage.vote_config.max_minted
                &&& r->Ok_0->VoteConfig_0.total_minted == storage.vote_config.total_minted
            },
            QueryMsg::IsMinter { address } => {
                &&& r is Ok
                &&& r->Ok_0 is IsMinter
                &&& r->Ok_0->IsMinter_0.is_minter == storage.minter(&address)
            },
            QueryMsg::Checkpoints { account, pos } => {
                &&& r is Ok <==> pos < storage.checkpoints_of(&account).len()
                &&& r is Ok ==> r->Ok_0 is Checkpoint && r->Ok_0->Checkpoint_0
                    == storage.checkpoints_of(&account)[pos as int]
                &&& r is Err ==> r->Err_0 is GenericErr && r->Err_0->GenericErr_msg@
                    == "Position out of range"@
            },
            QueryMsg::NumCheckpoints { account } => {
                &&& r is Ok
                &&& r->Ok_0 is NumCheckpoints
                &&& r->Ok_0->NumCheckpoints_0.num == storage.checkpoints_of(&account).len()
            },
            QueryMsg::GetVotes { account } => {
                &&& r is Ok
                &&& r->Ok_0 is Votes
                &&& r->Ok_0->Votes_0.votes == last_votes(storage.checkpoints_of(&account))
            },
            QueryMsg::GetPastVotes { account, block_number } => {
                &&& r is Ok <==> block_number < current_height
                &&& r is Ok ==> r->Ok_0 is PastVotes
                &&& r is Ok && in_block_order(storage.checkpoints_of(&account))
                    ==> r->Ok_0->PastVotes_0.votes == votes_at(
                    storage.checkpoints_of(&account),
                    block_number,
                )
                &&& r is Err ==> r->Err_0 is GenericErr && r->Err_0->GenericErr_msg@
                    == "Block not yet mined"@
            },
            QueryMsg::GetPastTotalSupply { block_number } => {
                &&& r is Ok <==> block_number < current_height
                &&& r is Ok ==> r->Ok_0 is PastTotalSupply
                &&& r is Ok && in_block_order(storage.vote_info.total_supply_checkpoints@)
                    ==> r->Ok_0->PastTotalSupply_0.total_supply == votes_at(
                    storage.vote_info.total_supply_checkpoints@,
                    block_number,
                )
                &&& r is Err ==> r->Err_0 is GenericErr && r->Err_0->GenericErr_msg@
                    == "Block not yet mined"@
            },
        },
{
    match msg {
        QueryMsg::VoteConfig {  } => Ok(QueryResponse::VoteConfig(query_vote_config(storage))),
        QueryMsg::IsMinter { address } => Ok(
            QueryResponse::IsMinter(query_is_minter(storage, &address)),
        ),
        QueryMsg::Checkpoints { account, pos } => {
            match checkpoints(storage, &account, pos) {
                Ok(v) => Ok(QueryResponse::Checkpoint(v)),
                Err(e) => Err(e),
            }
        },
        QueryMsg::NumCheckpoints { account } => Ok(
            QueryResponse::NumCheckpoints(num_checkpoints(storage, &account)),
        ),
        QueryMsg::GetVotes { account } => Ok(QueryResponse::Votes(get_votes(storage, &account))),
        QueryMsg::GetPastVotes { account, block_number } => {
            match get_past_votes(storage, current_height, &account, block_number) {
                Ok(v) => Ok(QueryResponse::PastVotes(v)),
                Err(e) => Err(e),
            }
        },
        QueryMsg::GetPastTotalSupply { block_number } => {
            match get_past_total_supply(storage, current_height, block_number) {
                Ok(v) => Ok(QueryResponse::PastTotalSupply(v)),
                Err(e) => Err(e),
            }
        },
    }
}

/// Moving to a new version of the code changes nothing that is kept and
/// emits nothing.
pub fn migrate(_msg: MigrateMsg) -> (r: Response)
    ensures
        r.messages@.len() == 0,
{
    Response::new()
}

} // verus!
