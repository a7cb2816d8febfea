//! What the distributor keeps between operations.

use vstd::prelude::*;
use vstd::string::StrSliceExecFns;
use vstd::utf8::encode_utf8;
use crate::addr::Addr;
use crate::distribute::helper::BASE_RATE_12;
use crate::errors::StdError;
use crate::table::Table;

verus! {

/// The budget of all rules together and the token it is paid in.
#[derive(Debug)]
pub struct DistributeConfig {
    pub gov: Addr,
    pub total_amount: u128,
    pub distribute_token: Addr,
    pub rules_total_amount: u128,
}

/// A rule: who may claim under it, how much in all, the lump that is
/// released at the start, and the linear release with its rate.
#[derive(Debug)]
pub struct RuleConfig {
    pub rule_name: String,
    pub rule_owner: Addr,
    pub rule_total_amount: u128,
    pub start_release_amount: u128,
    pub lock_start_time: u64,
    pub lock_end_time: u64,
    pub start_linear_release_time: u64,
    pub end_linear_release_time: u64,
    pub unlock_linear_release_amount: u128,
    pub unlock_linear_release_time: u64,
    pub linear_release_per_second: u128,
}

/// How much was claimed under a rule, and whether the lump was released.
#[derive(Clone, Copy, Debug, PartialEq, Eq, Structural)]
pub struct RuleConfigState {
    pub is_start_release: bool,
    pub released_amount: u128,
    pub claimed_amount: u128,
    pub last_claim_linear_release_time: u64,
}

/// Everything the distributor keeps: the budget, and the rules and their
/// states by the rule's type.
pub struct Storage {
    pub distribute_config: DistributeConfig,
    pub rule_config: Table<RuleConfig>,
    pub rule_config_state: Table<RuleConfigState>,
}

/// What the storage holds, as mathematics: the rules and their states as
/// maps from the bytes of a rule's type.
pub struct StorageView {
    pub distribute_config: DistributeConfig,
    pub rule_config: Map<Seq<u8>, RuleConfig>,
    pub rule_config_state: Map<Seq<u8>, RuleConfigState>,
}

impl View for Storage {
    type V = StorageView;

    open spec fn view(&self) -> StorageView {
        StorageView {
            distribute_config: self.distribute_config,
            rule_config: self.rule_config.map(),
            rule_config_state: self.rule_config_state.map(),
        }
    }
}

impl StorageView {
    /// Every rule has a state and every state a rule.
    pub open spec fn wf(&self) -> bool {
        forall|k: Seq<u8>|
            self.rule_config.contains_key(k) <==> self.rule_config_state.contains_key(k)
    }
}

impl Storage {
    /// Every rule has a state and every state a rule.
    pub open spec fn wf(&self) -> bool {
        self@.wf()
    }
}

/// The bytes under which a rule is filed: its type in UTF-8.
pub open spec fn rule_key(rule_type: Seq<char>) -> Seq<u8> {
    encode_utf8(rule_type)
}

/// What `NotFound` names where a rule is missing.
pub open spec fn rule_config_kind() -> Seq<char> {
    "distribute::state::RuleConfig"@
}

/// What `NotFound` names where a rule's state is missing.
pub open spec fn rule_config_state_kind() -> Seq<char> {
    "distribute::state::RuleConfigState"@
}

impl Clone for DistributeConfig {
    fn clone(&self) -> (r: DistributeConfig)
        ensures
            r == *self,
    {
        DistributeConfig {
            gov: self.gov.clone(),
            total_amount: self.total_amount,
            distribute_token: self.distribute_token.clone(),
            rules_total_amount: self.rules_total_amount,
        }
    }
}

impl Clone for RuleConfig {
    fn clone(&self) -> (r: RuleConfig)
        ensures
            r == *self,
    {
        RuleConfig {
            rule_name: self.rule_name.clone(),
            rule_owner: self.rule_owner.clone(),
            rule_total_amount: self.rule_total_amount,
            start_release_amount: self.start_release_amount,
            lock_start_time: self.lock_start_time,
            lock_end_time: self.lock_end_time,
            start_linear_release_time: self.start_linear_release_time,
            end_linear_release_time: self.end_linear_release_time,
            unlock_linear_release_amount: self.unlock_linear_release_amount,
            unlock_linear_release_time: self.unlock_linear_release_time,
            linear_release_per_second: self.linear_release_per_second,
        }
    }
}

impl RuleConfig {
    /// The derived fields are what the base fields give: the linear release
    /// lasts a positive time and ends that time after it starts, and the rate
    /// is the amount, scaled, divided by that time.
    pub open spec fn wf(&self) -> bool {
        &&& self.unlock_linear_release_time > 0
        &&& self.end_linear_release_time == self.start_linear_release_time
            + self.unlock_linear_release_time
        &&& self.unlock_linear_release_amount * BASE_RATE_12 <= u128::MAX
        &&& self.linear_release_per_second == (self.unlock_linear_release_amount * BASE_RATE_12)
            / (self.unlock_linear_release_time as int)
    }
}

impl RuleConfigState {
    /// The state of a rule under which nothing was claimed.
    pub open spec fn fresh() -> RuleConfigState {
        RuleConfigState {
            is_start_release: false,
            released_amount: 0,
            claimed_amount: 0,
            last_claim_linear_release_time: 0,
        }
    }

    /// The state fits the rule: what counts as released is the lump once it
    /// was released and nothing before, the linear release is reckoned from
    /// its start, and no more is claimed than the rule's total.
    pub open spec fn fits(&self, rule: &RuleConfig) -> bool {
        &&& self.released_amount == if self.is_start_release {
            rule.start_release_amount
        } else {
            0
        }
        &&& self.last_claim_linear_release_time <= rule.start_linear_release_time
        &&& self.claimed_amount <= rule.rule_total_amount
    }
}

/// Keeps the budget in place of the one before.
pub fn store_distribute_config(storage: &mut Storage, config: &DistributeConfig)
    ensures
        *final(storage) == (Storage { distribute_config: *config, ..*old(storage) }),
{
    storage.distribute_config = config.clone();
}

/// The budget as it is kept.
pub fn read_distribute_config(storage: &Storage) -> (r: DistributeConfig)
    ensures
        r == storage.distribute_config,
{
    storage.distribute_config.clone()
}

/// Files the rule under its type, in place of an earlier one.
pub fn store_rule_config(storage: &mut Storage, key: &str, data: &RuleConfig)
    ensures
        final(storage)@ == (StorageView {
            rule_config: old(storage)@.rule_config.insert(rule_key(key@), *data),
            ..old(storage)@
        }),
        final(storage).rule_config_state == old(storage).rule_config_state,
{
    storage.rule_config.insert(key.as_bytes_vec(), data.clone());
}

/// Whether a rule is filed under the type.
pub fn check_rule_config_exist(storage: &Storage, key: &str) -> (r: bool)
    ensures
        r == storage@.rule_config.contains_key(rule_key(key@)),
{
    storage.rule_config.get(key.as_bytes()).is_some()
}

/// The rule filed under the type; `NotFound` where there is none.
pub fn read_rule_config(storage: &Storage, key: &str) -> (r: Result<RuleConfig, StdError>)
    ensures
        r is Ok <==> storage@.rule_config.contains_key(rule_key(key@)),
        r is Ok ==> r->Ok_0 == storage@.rule_config[rule_key(key@)],
        r is Err ==> r->Err_0 is NotFound && r->Err_0->NotFound_kind@ == rule_config_kind(),
{
    match storage.rule_config.get(key.as_bytes()) {
        Some(rule) => Ok(rule.clone()),
        None => Err(StdError::not_found("distribute::state::RuleConfig")),
    }
}

/// Files the state under the rule's type, in place of an earlier one.
pub fn store_rule_config_state(storage: &mut Storage, key: &str, data: &RuleConfigState)
    ensures
        final(storage)@ == (StorageView {
            rule_config_state: old(storage)@.rule_config_state.insert(rule_key(key@), *data),
            ..old(storage)@
        }),
        final(storage).rule_config == old(storage).rule_config,
{
    storage.rule_config_state.insert(key.as_bytes_vec(), *data);
}

/// The state filed under the rule's type; `NotFound` where there is none.
pub fn read_rule_config_state(storage: &Storage, key: &str) -> (r: Result<
    RuleConfigState,
    StdError,
>)
    ensures
        r is Ok <==> storage@.rule_config_state.contains_key(rule_key(key@)),
        r is Ok ==> r->Ok_0 == storage@.rule_config_state[rule_key(key@)],
        r is Err ==> r->Err_0 is NotFound && r->Err_0->NotFound_kind@ == rule_config_state_kind(),
{
    match storage.rule_config_state.get(key.as_bytes()) {
        Some(state) => Ok(*state),
        None => Err(StdError::not_found("distribute::state::RuleConfigState")),
    }
}

} // verus!
