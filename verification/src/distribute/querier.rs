//! The questions that the distributor answers without changing anything.

use vstd::prelude::*;
use crate::distribute::msg::{QueryClaimableInfoResponse, QueryConfigResponse,
    QueryRuleInfoResponse};
use crate::distribute::state::{read_distribute_config, read_rule_config, read_rule_config_state,
    rule_config_kind, rule_config_state_kind, rule_key, Storage};
use crate::distribute::vesting::{claimable_failure, entitled, entitled_spec};
use crate::errors::{OverflowError, StdError};

verus! {

/// What the owner of the rule could claim at `block_time`. A rule without
/// anything to claim answers zero; a missing rule is `NotFound`; a reckoning
/// that does not fit is the overflow.
pub fn query_claimable_info(storage: &Storage, block_time: u64, rule_type: String) -> (r: Result<
    QueryClaimableInfoResponse,
    StdError,
>)
    ensures
        !storage@.rule_config.contains_key(rule_key(rule_type@)) ==> r is Err && r->Err_0 is NotFound
            && r->Err_0->NotFound_kind@ == rule_config_kind(),
        storage@.rule_config.contains_key(rule_key(rule_type@))
            && !storage@.rule_config_state.contains_key(rule_key(rule_type@)) ==> r is Err
            && r->Err_0 is NotFound && r->Err_0->NotFound_kind@ == rule_config_state_kind(),
        storage@.rule_config.contains_key(rule_key(rule_type@))
            && storage@.rule_config_state.contains_key(rule_key(rule_type@)) ==> (
        match claimable_failure(
            &storage@.rule_config[rule_key(rule_type@)],
            &storage@.rule_config_state[rule_key(rule_type@)],
            block_time,
        ) {
            Some(operation) => r == Err::<QueryClaimableInfoResponse, StdError>(
                StdError::Overflow { source: OverflowError { operation } },
            ),
            None => r == Ok::<QueryClaimableInfoResponse, StdError>(
                entitled_spec(
                    &storage@.rule_config[rule_key(rule_type@)],
                    &storage@.rule_config_state[rule_key(rule_type@)],
                    block_time,
                ),
            ),
        }),
{
    let rule_config = read_rule_config(storage, rule_type.as_str())?;
    let rule_config_state = read_rule_config_state(storage, rule_type.as_str())?;
    match entitled(&rule_config, &rule_config_state, block_time) {
        Ok(info) => Ok(info),
        Err(e) => Err(StdError::overflow(e)),
    }
}

/// The rule of the given type and its state; `NotFound` where one is
/// missing.
pub fn query_rule_info(storage: &Storage, rule_type: String) -> (r: Result<
    QueryRuleInfoResponse,
    StdError,
>)
    ensures
        r is Ok <==> storage@.rule_config.contains_key(rule_key(rule_type@))
            && storage@.rule_config_state.contains_key(rule_key(rule_type@)),
        r is Ok ==> r->Ok_0.rule_config == storage@.rule_config[rule_key(rule_type@)]
            && r->Ok_0.rule_config_state == storage@.rule_config_state[rule_key(rule_type@)],
        !storage@.rule_config.contains_key(rule_key(rule_type@)) ==> r is Err && r->Err_0 is NotFound
            && r->Err_0->NotFound_kind@ == rule_config_kind(),
        r is Err && storage@.rule_config.contains_key(rule_key(rule_type@)) ==> r->Err_0 is NotFound
            && r->Err_0->NotFound_kind@ == rule_config_state_kind(),
{
    let rule_config = read_rule_config(storage, rule_type.as_str())?;
    let rule_config_state = read_rule_config_state(storage, rule_type.as_str())?;
    Ok(QueryRuleInfoResponse { rule_config, rule_config_state })
}

/// The budget and the accounts that administer it, as they are kept.
pub fn query_config(storage: &Storage) -> (r: QueryConfigResponse)
    ensures
        r.gov == storage.distribute_config.gov,
        r.total_amount == storage.distribute_config.total_amount,
        r.distribute_token == storage.distribute_config.distribute_token,
        r.rules_total_amount == storage.distribute_config.rules_total_amount,
{
    let config = read_distribute_config(storage);
    QueryConfigResponse {
        gov: config.gov,
        total_amount: config.total_amount,
        distribute_token: config.distribute_token,
        rules_total_amount: config.rules_total_amount,
    }
}

} // verus!
