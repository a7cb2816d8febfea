//! The Seilor token's entry points: creation, the operations by message,
//! the questions by message.

use vstd::prelude::*;
use crate::addr::Addr;
use crate::response::Response;
use crate::seilor::error::ContractError;
use crate::seilor::handler::{mint, mint_failure, update_config};
use crate::seilor::msg::{ExecuteMsg, InstantiateMsg, MigrateMsg, QueryMsg, SeilorConfigResponse};
use crate::seilor::querier::query_seilor_config;
use crate::seilor::state::{SeilorConfig, Storage};
use crate::model_util::updated;
use crate::token::{is_notice, prepare, prepared, Cw20InstantiateMsg, LedgerMsg, LedgerQuery,
    MintOrder};

verus! {

/// What is left for the environment to do after an operation.
#[derive(Debug)]
pub enum Action {
    /// Nothing.
    Done,
    /// Have the ledger mint.
    Mint(MintOrder),
    /// Hand the message on to the ledger.
    Ledger(LedgerMsg),
}

/// What a query answers, or the question for the ledger.
#[derive(Debug)]
pub enum QueryResponse {
    SeilorConfig(SeilorConfigResponse),
    Ledger(LedgerQuery),
}

/// Creates the token's storage and prepares the creation of its ledger: the
/// contract itself mints, up to the largest supply; neither a fund nor a
/// distributor is configured yet.
pub fn instantiate(contract: &Addr, sender: &Addr, msg: InstantiateMsg) -> (r: (
    Storage,
    Cw20InstantiateMsg,
))
    ensures
        r.0.seilor_config.max_supply == msg.max_supply,
        r.0.seilor_config.fund@.len() == 0,
        r.0.seilor_config.distribute@.len() == 0,
        r.0.seilor_config.gov == updated(msg.gov, *sender),
        prepared(&msg.cw20_init_msg, &r.1, contract, msg.max_supply, &r.0.seilor_config.gov),
{
    let gov = match msg.gov {
        Some(gov) => gov,
        None => sender.clone(),
    };
    let cw20_instantiate_msg = prepare(msg.cw20_init_msg, contract, msg.max_supply, &gov);
    proof {
        reveal_strlit("");
    }
    let config = SeilorConfig {
        max_supply: msg.max_supply,
        fund: Addr::unchecked(""),
        gov,
        distribute: Addr::unchecked(""),
    };
    (Storage { seilor_config: config }, cw20_instantiate_msg)
}

/// Decides the operation that the message names, for `sender`: what
/// `update_config` or `mint` decides; what only concerns the ledger is
/// handed on.
pub fn execute(storage: &mut Storage, sender: &Addr, msg: ExecuteMsg) -> (r: Result<
    Action,
    ContractError,
>)
    ensures
        match msg {
            ExecuteMsg::UpdateConfig { fund, gov, distribute } => {
                &&& r is Ok <==> old(storage).seilor_config.gov@ == sender@
                &&& r is Ok ==> r->Ok_0 is Done && final(storage).seilor_config == (SeilorConfig {
                    fund: updated(fund, old(storage).seilor_config.fund),
                    gov: updated(gov, old(storage).seilor_config.gov),
                    distribute: updated(distribute, old(storage).seilor_config.distribute),
                    ..old(storage).seilor_config
                })
                &&& r is Err ==> r->Err_0 == (ContractError::Unauthorized {  }) && *final(storage)
                    == *old(storage)
            },
            ExecuteMsg::Mint { recipient, amount, contract, msg } => {
                &&& *final(storage) == *old(storage)
                &&& r is Ok <==> mint_failure(&old(storage).seilor_config, sender) is None
                &&& r is Ok ==> {
                    &&& r->Ok_0 is Mint
                    &&& r->Ok_0->Mint_0.recipient == recipient
                    &&& r->Ok_0->Mint_0.amount == amount
                    &&& is_notice(&r->Ok_0->Mint_0.notify, sender, amount, &contract, &msg)
                }
            },
            ExecuteMsg::Ledger(m) => r is Ok && r->Ok_0 is Ledger && r->Ok_0->Ledger_0 == m
                && *final(storage) == *old(storage),
        },
{
    match msg {
        ExecuteMsg::UpdateConfig { fund, gov, distribute } => {
            match update_config(storage, sender, fund, gov, distribute) {
                Ok(_) => Ok(Action::Done),
                Err(e) => Err(e),
            }
        },
        ExecuteMsg::Mint { recipient, amount, contract, msg } => {
            match mint(storage, sender, &recipient, amount, contract, msg) {
                Ok(order) => Ok(Action::Mint(order)),
                Err(e) => Err(e),
            }
        },
        ExecuteMsg::Ledger(m) => Ok(Action::Ledger(m)),
    }
}

/// Answers the question about the configuration; a question that only
/// concerns the ledger is handed on.
pub fn query(storage: &Storage, msg: QueryMsg) -> (r: QueryResponse)
    ensures
        match msg {
            QueryMsg::SeilorConfig {  } => {
                &&& r is SeilorConfig
                &&& r->SeilorConfig_0.max_supply == storage.seilor_config.max_supply
                &&& r->SeilorConfig_0.fund == storage.seilor_config.fund
                &&& r->SeilorConfig_0.distribute == storage.seilor_config.distribute
                &&& r->SeilorConfig_0.gov == storage.seilor_config.gov
            },
            QueryMsg::Ledger(q) => r is Ledger && r->Ledger_0 == q,
        },
{
    match msg {
        QueryMsg::SeilorConfig {  } => QueryResponse::SeilorConfig(query_seilor_config(storage)),
        QueryMsg::Ledger(q) => QueryResponse::Ledger(q),
    }
}

/// Moving to a new version of the code changes nothing that is kept and
/// emits nothing.
pub fn migrate(_msg: MigrateMsg) -> (r: Response)
    ensures
        r.messages@.len() == 0,
{
    Response::new()
}

} // verus!
