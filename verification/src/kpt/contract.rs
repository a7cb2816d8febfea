//! The KPT token's entry points: creation, the operations by message,
//! the questions by message.

use vstd::prelude::*;
use crate::addr::Addr;
use crate::response::Response;
use crate::kpt::error::ContractError;
use crate::kpt::handler::{burn, mint, mint_failure, update_config};
use crate::kpt::msg::{ExecuteMsg, InstantiateMsg, MigrateMsg, QueryMsg, KptConfigResponse};
use crate::kpt::querier::query_kpt_config;
use crate::kpt::state::{KptConfig, Storage};
use crate::model_util::updated;
use crate::token::{is_notice, prepare, prepared, BurnOrder, Cw20InstantiateMsg, LedgerMsg,
    LedgerQuery, MintOrder};

verus! {

/// What is left for the environment to do after an operation.
#[derive(Debug)]
pub enum Action {
    /// Nothing.
    Done,
    /// Have the ledger mint.
    Mint(MintOrder),
    /// Have the ledger burn.
    Burn(BurnOrder),
    /// Hand the message on to the ledger.
    Ledger(LedgerMsg),
}

/// What a query answers, or the question for the ledger.
#[derive(Debug)]
pub enum QueryResponse {
    KptConfig(KptConfigResponse),
    Ledger(LedgerQuery),
}

/// Creates the token's storage and prepares the creation of its ledger: the
/// contract itself mints, up to the largest supply; neither a fund nor a
/// distributor is configured yet.
pub fn instantiate(contract: &Addr, sender: &Addr, msg: InstantiateMsg) -> (r: (
    Storage,
    Cw20InstantiateMsg,
))
    ensures
        r.0.kpt_config.max_supply == msg.max_supply,
        r.0.kpt_config.kpt_fund@.len() == 0,
        r.0.kpt_config.kpt_distribute@.len() == 0,
        r.0.kpt_config.gov == updated(msg.gov, *sender),
        prepared(&msg.cw20_init_msg, &r.1, contract, msg.max_supply, &r.0.kpt_config.gov),
{
    let gov = match msg.gov {
        Some(gov) => gov,
        None => sender.clone(),
    };
    let cw20_instantiate_msg = prepare(msg.cw20_init_msg, contract, msg.max_supply, &gov);
    proof {
        reveal_strlit("");
    }
    let config = KptConfig {
        max_supply: msg.max_supply,
        kpt_fund: Addr::unchecked(""),
        gov,
        kpt_distribute: Addr::unchecked(""),
    };
    (Storage { kpt_config: config }, cw20_instantiate_msg)
}

/// Decides the operation that the message names, for `sender`: what
/// `update_config` or `mint` decides; what only concerns the ledger is
/// handed on.
pub fn execute(storage: &mut Storage, sender: &Addr, msg: ExecuteMsg) -> (r: Result<
    Action,
    ContractError,
>)
    ensures
        match msg {
            ExecuteMsg::UpdateConfig { kpt_fund, gov, kpt_distribute } => {
                &&& r is Ok <==> old(storage).kpt_config.gov@ == sender@
                &&& r is Ok ==> r->Ok_0 is Done && final(storage).kpt_config == (KptConfig {
                    kpt_fund: updated(kpt_fund, old(storage).kpt_config.kpt_fund),
                    gov: updated(gov, old(storage).kpt_config.gov),
                    kpt_distribute: updated(kpt_distribute, old(storage).kpt_config.kpt_distribute),
                    ..old(storage).kpt_config
                })
                &&& r is Err ==> r->Err_0 == (ContractError::Unauthorized {  }) && *final(storage)
                    == *old(storage)
            },
            ExecuteMsg::Mint { recipient, amount, contract, msg } => {
                &&& *final(storage) == *old(storage)
                &&& r is Ok <==> mint_failure(&old(storage).kpt_config, sender) is None
                &&& r is Ok ==> {
                    &&& r->Ok_0 is Mint
                    &&& r->Ok_0->Mint_0.recipient == recipient
                    &&& r->Ok_0->Mint_0.amount == amount
                    &&& is_notice(&r->Ok_0->Mint_0.notify, sender, amount, &contract, &msg)
                }
            },
            ExecuteMsg::Burn { user, amount } => {
                &&& *final(storage) == *old(storage)
                &&& r is Ok <==> sender@ == old(storage).kpt_config.kpt_fund@
                &&& r is Ok ==> r->Ok_0 is Burn && r->Ok_0->Burn_0 == (BurnOrder {
                    owner: user,
                    amount,
                })
                &&& r is Err ==> r->Err_0 == (ContractError::Unauthorized {  })
            },
            ExecuteMsg::Ledger(m) => r is Ok && r->Ok_0 is Ledger && r->Ok_0->Ledger_0 == m
                && *final(storage) == *old(storage),
        },
{
    match msg {
        ExecuteMsg::UpdateConfig { kpt_fund, gov, kpt_distribute } => {
            match update_config(storage, sender, kpt_fund, gov, kpt_distribute) {
                Ok(_) => Ok(Action::Done),
                Err(e) => Err(e),
            }
        },
        ExecuteMsg::Mint { recipient, amount, contract, msg } => {
            match mint(storage, sender, &recipient, amount, contract, msg) {
                Ok(order) => Ok(Action::Mint(order)),
                Err(e) => Err(e),
            }
        },
        ExecuteMsg::Burn { user, amount } => {
            match burn(storage, sender, &user, amount) {
                Ok(order) => Ok(Action::Burn(order)),
                Err(e) => Err(e),
            }
        },
        ExecuteMsg::Ledger(m) => Ok(Action::Ledger(m)),
    }
}

/// Answers the question about the configuration; a question that only
/// concerns the ledger is handed on.
pub fn query(storage: &Storage, msg: QueryMsg) -> (r: QueryResponse)
    ensures
        match msg {
            QueryMsg::KptConfig {  } => {
                &&& r is KptConfig
                &&& r->KptConfig_0.max_supply == storage.kpt_config.max_supply
                &&& r->KptConfig_0.kpt_fund == storage.kpt_config.kpt_fund
                &&& r->KptConfig_0.kpt_distribute == storage.kpt_config.kpt_distribute
                &&& r->KptConfig_0.gov == storage.kpt_config.gov
            },
            QueryMsg::Ledger(q) => r is Ledger && r->Ledger_0 == q,
        },
{
    match msg {
        QueryMsg::KptConfig {  } => QueryResponse::KptConfig(query_kpt_config(storage)),
        QueryMsg::Ledger(q) => QueryResponse::Ledger(q),
    }
}

/// Moving to a new version of the code changes nothing that is kept and
/// emits nothing.
pub fn migrate(_msg: MigrateMsg) -> (r: Response)
    ensures
        r.messages@.len() == 0,
{
    Response::new()
}

} // verus!
