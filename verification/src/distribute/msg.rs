//! The messages that the distributor takes and the answers it gives.

use vstd::prelude::*;
use crate::addr::Addr;
use crate::distribute::state::{RuleConfig, RuleConfigState};

verus! {

/// What a rule's owner could claim now, and the two parts it is made of.
#[derive(Clone, Copy, Debug, PartialEq, Eq, Structural)]
pub struct QueryClaimableInfoResponse {
    pub can_claim_amount: u128,
    pub release_amount: u128,
    pub linear_release_amount: u128,
}

#[derive(Debug)]
pub struct QueryRuleInfoResponse {
    pub rule_config: RuleConfig,
    pub rule_config_state: RuleConfigState,
}

#[derive(Debug)]
pub struct QueryConfigResponse {
    pub gov: Addr,
    pub total_amount: u128,
    pub distribute_token: Addr,
    pub rules_total_amount: u128,
}

#[derive(Debug)]
pub struct UpdateRuleConfigMsg {
    pub rule_type: String,
    pub rule_name: Option<String>,
    pub rule_owner: Option<Addr>,
}

/// A rule as it is asked for; the end of the linear release and the rate are
/// worked out from it.
#[derive(Debug)]
pub struct RuleConfigMsg {
    pub rule_name: String,
    pub rule_owner: Addr,
    pub rule_total_amount: u128,
    pub start_release_amount: u128,
    pub lock_start_time: u64,
    pub lock_end_time: u64,
    pub start_linear_release_time: u64,
    pub unlock_linear_release_amount: u128,
    pub unlock_linear_release_time: u64,
}

/// The creation message; the rules come as pairs of a rule's type and the
/// rule.
#[derive(Debug)]
pub struct InstantiateMsg {
    pub gov: Option<Addr>,
    pub total_amount: u128,
    pub distribute_token: Addr,
    pub rule_configs_map: Vec<(String, RuleConfigMsg)>,
}

#[derive(Debug)]
pub enum ExecuteMsg {
    Claim { rule_type: String, msg: Option<Vec<u8>> },
    UpdateConfig { gov: Option<Addr>, distribute_token: Option<Addr> },
    UpdateRuleConfig { update_rule_msg: UpdateRuleConfigMsg },
    AddRuleConfig { rule_type: String, rule_msg: RuleConfigMsg },
}

#[derive(Debug)]
pub enum QueryMsg {
    QueryClaimableInfo { rule_type: String },
    QueryRuleInfo { rule_type: String },
    QueryConfig {  },
}

/// What a query answers.
#[derive(Debug)]
pub enum QueryResponse {
    ClaimableInfo(QueryClaimableInfoResponse),
    RuleInfo(QueryRuleInfoResponse),
    Config(QueryConfigResponse),
}

#[derive(Clone, Copy, Debug, PartialEq, Eq, Structural)]
pub struct MigrateMsg {
}

} // verus!
