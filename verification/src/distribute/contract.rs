//! The distributor's entry points: creation, the operations by message, the
//! questions by message.

use vstd::prelude::*;
use crate::addr::Addr;
use crate::distribute::error::ContractError;
use crate::distribute::handler::{add_rule_config, add_rule_config_ensures, claim, claim_ensures,
    derive_rule, update_config, update_config_ensures, update_rule_config,
    update_rule_config_ensures};
use crate::distribute::model::{derive_failure, derived_rule};
use crate::distribute::msg::{ExecuteMsg, InstantiateMsg, MigrateMsg, QueryMsg, QueryResponse,
    RuleConfigMsg};
use crate::distribute::querier::{query_claimable_info, query_config, query_rule_info};
use crate::distribute::state::{rule_key, store_rule_config, store_rule_config_state,
    DistributeConfig, RuleConfig, RuleConfigState, Storage, StorageView};
use crate::distribute::vesting::{claimable_failure, entitled_spec, overflow};
use crate::errors::{OverflowError, OverflowOperation, StdError};
use crate::model_util::updated;
use crate::response::Response;
use crate::table::Table;

verus! {

/// The totals of a run of rules together.
pub open spec fn rules_total(rules: Seq<(String, RuleConfigMsg)>) -> nat
    decreases rules.len(),
{
    if rules.len() == 0 {
        0
    } else {
        rules_total(rules.drop_last()) + (rules.last().1.rule_total_amount as nat)
    }
}

/// Why a run of rules cannot be taken in, if it cannot: the first rule whose
/// total no longer fits together with those before it, or whose derived
/// fields cannot be worked out.
pub open spec fn rules_failure(rules: Seq<(String, RuleConfigMsg)>) -> Option<StdError>
    decreases rules.len(),
{
    if rules.len() == 0 {
        None
    } else {
        match rules_failure(rules.drop_last()) {
            Some(e) => Some(e),
            None => if rules_total(rules) > u128::MAX {
                Some(
                    StdError::Overflow {
                        source: OverflowError { operation: OverflowOperation::Add },
                    },
                )
            } else {
                derive_failure(&rules.last().1)
            },
        }
    }
}

/// The rules by type once each rule of a run is filed, a later one in place
/// of an earlier one of the same type.
pub open spec fn rules_into(rules: Seq<(String, RuleConfigMsg)>) -> Map<Seq<u8>, RuleConfig>
    decreases rules.len(),
{
    if rules.len() == 0 {
        Map::empty()
    } else {
        rules_into(rules.drop_last()).insert(
            rule_key(rules.last().0@),
            derived_rule(&rules.last().1),
        )
    }
}

/// The states by type once each rule of a run has a fresh one.
pub open spec fn states_into(rules: Seq<(String, RuleConfigMsg)>) -> Map<Seq<u8>, RuleConfigState>
    decreases rules.len(),
{
    if rules.len() == 0 {
        Map::empty()
    } else {
        states_into(rules.drop_last()).insert(rule_key(rules.last().0@), RuleConfigState::fresh())
    }
}

/// Creates the distributor's storage with the rules of the message, each
/// with a fresh state. Refused where a rule cannot be taken in, or where the
/// rules' totals together pass the budget.
pub fn instantiate(sender: &Addr, msg: InstantiateMsg) -> (r: Result<Storage, StdError>)
    ensures
        match rules_failure(msg.rule_configs_map@) {
            Some(e) => r == Err::<Storage, StdError>(e),
            None => if msg.total_amount < rules_total(msg.rule_configs_map@) {
                r is Err && r->Err_0 is GenericErr && r->Err_0->GenericErr_msg@
                    == "total_amount must be greater than rule_total_amount"@
            } else {
                &&& r is Ok
                &&& r->Ok_0.wf()
                &&& r->Ok_0@ == (StorageView {
                    distribute_config: DistributeConfig {
                        gov: updated(msg.gov, *sender),
                        total_amount: msg.total_amount,
                        distribute_token: msg.distribute_token,
                        rules_total_amount: rules_total(msg.rule_configs_map@) as u128,
                    },
                    rule_config: rules_into(msg.rule_configs_map@),
                    rule_config_state: states_into(msg.rule_configs_map@),
                })
            },
        },
{
    let gov = match msg.gov {
        Some(gov) => gov,
        None => sender.clone(),
    };
    let mut storage = Storage {
        distribute_config: DistributeConfig {
            gov,
            total_amount: msg.total_amount,
            distribute_token: msg.distribute_token,
            rules_total_amount: 0,
        },
        rule_config: Table::new(),
        rule_config_state: Table::new(),
    };
    let rules = msg.rule_configs_map;
    let mut rule_total_amount: u128 = 0;
    let mut i: usize = 0;
    proof {
        assert(rules@.take(0).len() == 0);
    }
    while i < rules.len()
        invariant
            i <= rules@.len(),
            rules@ == msg.rule_configs_map@,
            rules_failure(rules@.take(i as int)) is None,
            rule_total_amount == rules_total(rules@.take(i as int)),
            storage.wf(),
            storage@.rule_config == rules_into(rules@.take(i as int)),
            storage@.rule_config_state == states_into(rules@.take(i as int)),
            storage.distribute_config.gov == updated(msg.gov, *sender),
            storage.distribute_config.total_amount == msg.total_amount,
            storage.distribute_config.distribute_token == msg.distribute_token,
            storage.distribute_config.rules_total_amount == 0,
        decreases rules@.len() - i,
    {
        proof {
            assert(rules@.take(i + 1).drop_last() =~= rules@.take(i as int));
            assert(rules@.take(i + 1).last() == rules@[i as int]);
            lemma_failure_stays(rules@, i + 1);
        }
        rule_total_amount = match rule_total_amount.checked_add(rules[i].1.rule_total_amount) {
            Some(v) => v,
            None => {
                return Err(StdError::overflow(overflow(OverflowOperation::Add)));
            },
        };
        let rule_config = derive_rule(&rules[i].1)?;
        store_rule_config(&mut storage, rules[i].0.as_str(), &rule_config);
        let rule_config_state = RuleConfigState {
            is_start_release: false,
            claimed_amount: 0,
            released_amount: 0,
            last_claim_linear_release_time: 0,
        };
        store_rule_config_state(&mut storage, rules[i].0.as_str(), &rule_config_state);
        i += 1;
    }
    proof {
        assert(rules@.take(i as int) =~= rules@);
    }
    storage.distribute_config.rules_total_amount = rule_total_amount;
    if storage.distribute_config.total_amount < rule_total_amount {
        return Err(StdError::generic_err("total_amount must be greater than rule_total_amount"));
    }
    Ok(storage)
}

/// A run of rules that cannot be taken in up to some rule cannot be taken in
/// as a whole, and for the same reason.
pub proof fn lemma_failure_stays(rules: Seq<(String, RuleConfigMsg)>, upto: int)
    requires
        0 <= upto <= rules.len(),
    ensures
        rules_failure(rules.take(upto)) is Some ==> rules_failure(rules) == rules_failure(
            rules.take(upto),
        ),
    decreases rules.len() - upto,
{
    if rules_failure(rules.take(upto)) is None {
    } else if upto < rules.len() {
        assert(rules.take(upto + 1).drop_last() =~= rules.take(upto));
        lemma_failure_stays(rules, upto + 1);
    } else {
        assert(rules.take(upto) =~= rules);
    }
}

/// Carries out the operation that the message names, for `sender` at
/// `block_time`. A refused operation changes nothing.
pub fn execute(storage: &mut Storage, block_time: u64, sender: &Addr, msg: ExecuteMsg) -> (r:
    Result<Response, ContractError>)
    ensures
        old(storage).wf() ==> final(storage).wf(),
        match msg {
            ExecuteMsg::Claim { rule_type, msg } => claim_ensures(
                old(storage),
                final(storage),
                &r,
                block_time,
                sender,
                &rule_type,
                msg,
            ),
            ExecuteMsg::UpdateConfig { gov, distribute_token } => update_config_ensures(
                old(storage),
                final(storage),
                &r,
                sender,
                gov,
                distribute_token,
            ),
            ExecuteMsg::UpdateRuleConfig { update_rule_msg } => update_rule_config_ensures(
                old(storage),
                final(storage),
                &r,
                sender,
                &update_rule_msg,
            ),
            ExecuteMsg::AddRuleConfig { rule_type, rule_msg } => add_rule_config_ensures(
                old(storage),
                final(storage),
                &r,
                sender,
                &rule_type,
                &rule_msg,
            ),
        },
{
    match msg {
        ExecuteMsg::Claim { rule_type, msg } => claim(storage, block_time, sender, rule_type, msg),
        ExecuteMsg::UpdateConfig { gov, distribute_token } => update_config(
            storage,
            sender,
            gov,
            distribute_token,
        ),
        ExecuteMsg::UpdateRuleConfig { update_rule_msg } => update_rule_config(
            storage,
            sender,
            update_rule_msg,
        ),
        ExecuteMsg::AddRuleConfig { rule_type, rule_msg } => add_rule_config(
            storage,
            sender,
            rule_type,
            rule_msg,
        ),
    }
}

/// Answers the question that the message asks, as of `block_time`: what
/// `query_claimable_info`, `query_rule_info` or `query_config` answers.
pub fn query(storage: &Storage, block_time: u64, msg: QueryMsg) -> (r: Result<
    QueryResponse,
    StdError,
>)
    ensures
        match msg {
            QueryMsg::QueryClaimableInfo { rule_type } => {
                let key = rule_key(rule_type@);
                let rule = storage@.rule_config[key];
                let state = storage@.rule_config_state[key];
                if !storage@.rule_config.contains_key(key)
                    || !storage@.rule_config_state.contains_key(key) {
                    r is Err && r->Err_0 is NotFound
                } else {
                    match claimable_failure(&rule, &state, block_time) {
                        Some(operation) => r == Err::<QueryResponse, StdError>(
                            StdError::Overflow { source: OverflowError { operation } },
                        ),
                        None => r is Ok && r->Ok_0 is ClaimableInfo && r->Ok_0->ClaimableInfo_0
                            == entitled_spec(&rule, &state, block_time),
                    }
                }
            },
            QueryMsg::QueryRuleInfo { rule_type } => {
                let key = rule_key(rule_type@);
                &&& r is Ok <==> storage@.rule_config.contains_key(key)
                    && storage@.rule_config_state.contains_key(key)
                &&& r is Ok ==> {
                    &&& r->Ok_0 is RuleInfo
                    &&& r->Ok_0->RuleInfo_0.rule_config == storage@.rule_config[key]
                    &&& r->Ok_0->RuleInfo_0.rule_config_state == storage@.rule_config_state[key]
                }
                &&& r is Err ==> r->Err_0 is NotFound
            },
            QueryMsg::QueryConfig {  } => {
                &&& r is Ok
                &&& r->Ok_0 is Config
                &&& r->Ok_0->Config_0.gov == storage.distribute_config.gov
                &&& r->Ok_0->Config_0.total_amount == storage.distribute_config.total_amount
                &&& r->Ok_0->Config_0.distribute_token == storage.distribute_config.distribute_token
                &&& r->Ok_0->Config_0.rules_total_amount
                    == storage.distribute_config.rules_total_amount
            },
        },
{
    match msg {
        QueryMsg::QueryClaimableInfo { rule_type } => {
            match query_claimable_info(storage, block_time, rule_type) {
                Ok(v) => Ok(QueryResponse::ClaimableInfo(v)),
                Err(e) => Err(e),
            }
        },
        QueryMsg::QueryRuleInfo { rule_type } => {
            match query_rule_info(storage, rule_type) {
                Ok(v) => Ok(QueryResponse::RuleInfo(v)),
                Err(e) => Err(e),
            }
        },
        QueryMsg::QueryConfig {  } => Ok(QueryResponse::Config(query_config(storage))),
    }
}

/// Moving to a new version of the code changes nothing that is kept.
pub fn migrate(_msg: MigrateMsg) -> (r: Response)
    ensures
        r.messages@.len() == 0,
{
    Response::new()
}

} // verus!
