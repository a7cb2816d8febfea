//! The operations that change what the distributor keeps. Each one checks
//! everything first and writes only when nothing is left to refuse.

use vstd::prelude::*;
use crate::addr::Addr;
use crate::distribute::error::ContractError;
use crate::distribute::helper::BASE_RATE_12;
use crate::distribute::model::{add_rule_failure, add_rule_next, claim_failure, claimed_state,
    derive_failure, derived_rule, is_mint_for};
use crate::distribute::msg::{RuleConfigMsg, UpdateRuleConfigMsg};
use crate::distribute::state::{check_rule_config_exist, read_distribute_config, read_rule_config,
    read_rule_config_state, rule_config_kind, rule_config_state_kind, rule_key, store_distribute_config,
    store_rule_config, store_rule_config_state, DistributeConfig, RuleConfig, RuleConfigState,
    Storage, StorageView};
use crate::distribute::vesting::{entitled, entitled_spec, overflow};
use crate::errors::{OverflowOperation, StdError};
use crate::model_util::updated;
use crate::response::{Response, TokenMsg};

verus! {

/// What a claim leaves and hands back: `NotFound` where there is no rule of
/// that type, or no state for the rule; the refusal of the claim where it is
/// refused; and else the rule's state advanced by what was due and, unless
/// that is nothing, the minting of it for the sender. A claim with nothing
/// due goes through and changes nothing, and so does a refused claim.
pub open spec fn claim_ensures(
    pre: &Storage,
    post: &Storage,
    r: &Result<Response, ContractError>,
    block_time: u64,
    sender: &Addr,
    rule_type: &String,
    msg: Option<Vec<u8>>,
) -> bool {
    let key = rule_key(rule_type@);
    let rule = pre@.rule_config[key];
    let state = pre@.rule_config_state[key];
    let due = entitled_spec(&rule, &state, block_time).can_claim_amount;
    if !pre@.rule_config.contains_key(key) {
        &&& *r is Err
        &&& r->Err_0.is_not_found(rule_config_kind())
        &&& *post == *pre
    } else if rule.rule_owner@ != sender@ {
        *r == Err::<Response, ContractError>(ContractError::Unauthorized {  }) && *post == *pre
    } else if !pre@.rule_config_state.contains_key(key) {
        &&& *r is Err
        &&& r->Err_0.is_not_found(rule_config_state_kind())
        &&& *post == *pre
    } else {
        match claim_failure(&rule, &state, block_time, sender) {
            Some(e) => *r == Err::<Response, ContractError>(e) && *post == *pre,
            None => {
                &&& *r is Ok
                &&& due == 0 ==> r->Ok_0.messages@.len() == 0
                &&& due > 0 ==> r->Ok_0.messages@.len() == 1 && is_mint_for(
                    &r->Ok_0.messages@[0],
                    &pre.distribute_config.distribute_token,
                    sender,
                    due,
                    msg,
                )
                &&& post@ == (StorageView {
                    rule_config_state: pre@.rule_config_state.insert(
                        key,
                        claimed_state(&rule, &state, block_time),
                    ),
                    ..pre@
                })
                &&& claimed_state(&rule, &state, block_time) == state ==> post@ == pre@
                &&& pre.wf() ==> post.wf()
            },
        }
    }
}

/// Settles what the rule's owner may claim at `block_time` and emits the
/// minting of it, unless it is nothing.
pub fn claim(
    storage: &mut Storage,
    block_time: u64,
    sender: &Addr,
    rule_type: String,
    msg: Option<Vec<u8>>,
) -> (r: Result<Response, ContractError>)
    ensures
        claim_ensures(old(storage), final(storage), &r, block_time, sender, &rule_type, msg),
{
    let rule_config = match read_rule_config(storage, rule_type.as_str()) {
        Ok(v) => v,
        Err(e) => {
            return Err(ContractError::Std(e));
        },
    };
    if rule_config.rule_owner != *sender {
        return Err(ContractError::Unauthorized {  });
    }
    let distribute_config = read_distribute_config(storage);
    let mut rule_config_state = match read_rule_config_state(storage, rule_type.as_str()) {
        Ok(v) => v,
        Err(e) => {
            return Err(ContractError::Std(e));
        },
    };
    let total_can_claimed_amount = match rule_config.rule_total_amount.checked_sub(
        rule_config_state.claimed_amount,
    ) {
        Some(v) => v,
        None => {
            return Err(ContractError::OverflowError(overflow(OverflowOperation::Sub)));
        },
    };
    if total_can_claimed_amount != 0 && rule_config.lock_start_time != 0
        && rule_config.lock_start_time > block_time {
        return Err(ContractError::NotStartClaimTimeError {  });
    }
    let claimable_info = match entitled(&rule_config, &rule_config_state, block_time) {
        Ok(v) => v,
        Err(e) => {
            return Err(ContractError::Std(StdError::overflow(e)));
        },
    };
    let claim_amount: u128 = claimable_info.can_claim_amount;
    if claimable_info.release_amount > 0 && !rule_config_state.is_start_release {
        rule_config_state.is_start_release = true;
        rule_config_state.released_amount = match rule_config_state.released_amount.checked_add(
            claimable_info.release_amount,
        ) {
            Some(v) => v,
            None => {
                return Err(ContractError::OverflowError(overflow(OverflowOperation::Add)));
            },
        };
    }
    rule_config_state.claimed_amount = match rule_config_state.claimed_amount.checked_add(
        claim_amount,
    ) {
        Some(v) => v,
        None => {
            return Err(ContractError::OverflowError(overflow(OverflowOperation::Add)));
        },
    };
    if rule_config_state.claimed_amount > rule_config.rule_total_amount {
        return Err(
            ContractError::AmountClaimOverTotal(
                rule_config_state.claimed_amount,
                rule_config.rule_total_amount,
            ),
        );
    }
    store_rule_config_state(storage, rule_type.as_str(), &rule_config_state);
    proof {
        let key = rule_key(rule_type@);
        let kept = old(storage)@.rule_config_state;
        if rule_config_state == kept[key] {
            assert(kept.insert(key, rule_config_state) =~= kept);
        }
    }
    let mut response = Response::new();
    if claim_amount > 0 {
        response = Response::with_message(
            TokenMsg::Mint {
                contract_addr: distribute_config.distribute_token,
                recipient: sender.clone(),
                amount: claim_amount,
                contract: Some(sender.to_string()),
                msg,
            },
        );
    }
    Ok(response)
}

/// What an update of the configuration leaves and hands back: refused to
/// all but the governor, and else the named fields replaced.
pub open spec fn update_config_ensures(
    pre: &Storage,
    post: &Storage,
    r: &Result<Response, ContractError>,
    sender: &Addr,
    gov: Option<Addr>,
    distribute_token: Option<Addr>,
) -> bool {
    if pre.distribute_config.gov@ != sender@ {
        *r == Err::<Response, ContractError>(ContractError::Unauthorized {  }) && *post == *pre
    } else {
        &&& *r is Ok
        &&& r->Ok_0.messages@.len() == 0
        &&& *post == (Storage {
            distribute_config: DistributeConfig {
                gov: updated(gov, pre.distribute_config.gov),
                distribute_token: updated(distribute_token, pre.distribute_config.distribute_token),
                ..pre.distribute_config
            },
            ..*pre
        })
        &&& pre.wf() ==> post.wf()
    }
}

/// Replaces the governor and the token where the message names them. Only
/// the governor may.
pub fn update_config(
    storage: &mut Storage,
    sender: &Addr,
    gov: Option<Addr>,
    distribute_token: Option<Addr>,
) -> (r: Result<Response, ContractError>)
    ensures
        update_config_ensures(old(storage), final(storage), &r, sender, gov, distribute_token),
{
    let mut distribute_config = read_distribute_config(storage);
    if *sender != distribute_config.gov {
        return Err(ContractError::Unauthorized {  });
    }
    if let Some(gov) = gov {
        distribute_config.gov = gov;
    }
    if let Some(distribute_token) = distribute_token {
        distribute_config.distribute_token = distribute_token;
    }
    store_distribute_config(storage, &distribute_config);
    proof {
        assert(storage@.rule_config == old(storage)@.rule_config);
        assert(storage@.rule_config_state == old(storage)@.rule_config_state);
    }
    Ok(Response::new())
}

/// What an update of a rule leaves and hands back: refused to all but the
/// governor; `NotFound` where there is no rule of that type; and else the
/// rule's name and owner replaced where they are named.
pub open spec fn update_rule_config_ensures(
    pre: &Storage,
    post: &Storage,
    r: &Result<Response, ContractError>,
    sender: &Addr,
    update_rule_msg: &UpdateRuleConfigMsg,
) -> bool {
    let key = rule_key(update_rule_msg.rule_type@);
    let rule = pre@.rule_config[key];
    if pre.distribute_config.gov@ != sender@ {
        *r == Err::<Response, ContractError>(ContractError::Unauthorized {  }) && *post == *pre
    } else if !pre@.rule_config.contains_key(key) {
        *r is Err && r->Err_0.is_not_found(rule_config_kind()) && *post == *pre
    } else {
        &&& *r is Ok
        &&& r->Ok_0.messages@.len() == 0
        &&& post@ == (StorageView {
            rule_config: pre@.rule_config.insert(
                key,
                RuleConfig {
                    rule_name: updated(update_rule_msg.rule_name, rule.rule_name),
                    rule_owner: updated(update_rule_msg.rule_owner, rule.rule_owner),
                    ..rule
                },
            ),
            ..pre@
        })
        &&& pre.wf() ==> post.wf()
    }
}

/// Replaces a rule's name and owner where the message names them. Only the
/// governor may, and the rule has to exist.
pub fn update_rule_config(storage: &mut Storage, sender: &Addr, update_rule_msg: UpdateRuleConfigMsg) -> (r:
    Result<Response, ContractError>)
    ensures
        update_rule_config_ensures(old(storage), final(storage), &r, sender, &update_rule_msg),
{
    let distribute_config = read_distribute_config(storage);
    if *sender != distribute_config.gov {
        return Err(ContractError::Unauthorized {  });
    }
    let mut rule_config = match read_rule_config(storage, update_rule_msg.rule_type.as_str()) {
        Ok(v) => v,
        Err(e) => {
            return Err(ContractError::Std(e));
        },
    };
    if let Some(rule_name) = update_rule_msg.rule_name {
        rule_config.rule_name = rule_name;
    }
    if let Some(rule_owner) = update_rule_msg.rule_owner {
        rule_config.rule_owner = rule_owner;
    }
    store_rule_config(storage, update_rule_msg.rule_type.as_str(), &rule_config);
    Ok(Response::new())
}

/// The rule that a message asks for, with the end of its linear release and
/// its rate worked out; refused where they cannot be.
pub fn derive_rule(rule_msg: &RuleConfigMsg) -> (r: Result<RuleConfig, StdError>)
    ensures
        match derive_failure(rule_msg) {
            Some(e) => r == Err::<RuleConfig, StdError>(e),
            None => r == Ok::<RuleConfig, StdError>(derived_rule(rule_msg)) && r->Ok_0.wf(),
        },
{
    let end_linear_release_time: u64 = match rule_msg.start_linear_release_time.checked_add(
        rule_msg.unlock_linear_release_time,
    ) {
        Some(v) => v,
        None => {
            return Err(StdError::overflow(overflow(OverflowOperation::Add)));
        },
    };
    let scaled: u128 = match rule_msg.unlock_linear_release_amount.checked_mul(BASE_RATE_12) {
        Some(v) => v,
        None => {
            return Err(StdError::overflow(overflow(OverflowOperation::Mul)));
        },
    };
    if rule_msg.unlock_linear_release_time == 0 {
        return Err(StdError::divide_by_zero());
    }
    let linear_release_per_second: u128 = scaled / (rule_msg.unlock_linear_release_time as u128);
    Ok(
        RuleConfig {
            rule_name: rule_msg.rule_name.clone(),
            rule_owner: rule_msg.rule_owner.clone(),
            rule_total_amount: rule_msg.rule_total_amount,
            start_release_amount: rule_msg.start_release_amount,
            lock_start_time: rule_msg.lock_start_time,
            lock_end_time: rule_msg.lock_end_time,
            start_linear_release_time: rule_msg.start_linear_release_time,
            end_linear_release_time,
            unlock_linear_release_amount: rule_msg.unlock_linear_release_amount,
            unlock_linear_release_time: rule_msg.unlock_linear_release_time,
            linear_release_per_second,
        },
    )
}

/// What the adding of a rule leaves and hands back: the error that reports
/// why it is refused, with nothing changed; and else the rule and a fresh
/// state filed under its type, and its total counted towards the budget.
pub open spec fn add_rule_config_ensures(
    pre: &Storage,
    post: &Storage,
    r: &Result<Response, ContractError>,
    sender: &Addr,
    rule_type: &String,
    rule_msg: &RuleConfigMsg,
) -> bool {
    match add_rule_failure(&pre@, sender, rule_key(rule_type@), rule_msg) {
        Some(f) => *r is Err && f.reported_by(&r->Err_0) && *post == *pre,
        None => {
            &&& *r is Ok
            &&& r->Ok_0.messages@.len() == 0
            &&& post@ == add_rule_next(&pre@, rule_key(rule_type@), rule_msg)
            &&& pre.wf() ==> post.wf()
        },
    }
}

/// Adds a rule under a type that has none, within the budget that the rules
/// share. Only the governor may.
pub fn add_rule_config(storage: &mut Storage, sender: &Addr, rule_type: String, rule_msg: RuleConfigMsg) -> (r:
    Result<Response, ContractError>)
    ensures
        add_rule_config_ensures(old(storage), final(storage), &r, sender, &rule_type, &rule_msg),
{
    let mut distribute_config = read_distribute_config(storage);
    if distribute_config.gov != *sender {
        return Err(ContractError::Unauthorized {  });
    }
    if check_rule_config_exist(storage, rule_type.as_str()) {
        return Err(ContractError::Std(StdError::generic_err("rule config already exist")));
    }
    if rule_msg.rule_total_amount == 0 {
        return Err(
            ContractError::Std(
                StdError::generic_err("rule total amount must be greater than zero"),
            ),
        );
    }
    let rule_total_amount: u128 = match rule_msg.rule_total_amount.checked_add(
        distribute_config.rules_total_amount,
    ) {
        Some(v) => v,
        None => {
            return Err(ContractError::OverflowError(overflow(OverflowOperation::Add)));
        },
    };
    if rule_total_amount > distribute_config.total_amount {
        return Err(
            ContractError::Std(
                StdError::generic_err("rule total amount over distribute token amount"),
            ),
        );
    }
    let rule_config = match derive_rule(&rule_msg) {
        Ok(v) => v,
        Err(e) => {
            return Err(ContractError::Std(e));
        },
    };
    distribute_config.rules_total_amount = rule_total_amount;
    store_distribute_config(storage, &distribute_config);
    store_rule_config(storage, rule_type.as_str(), &rule_config);
    let rule_config_state = RuleConfigState {
        is_start_release: false,
        claimed_amount: 0,
        released_amount: 0,
        last_claim_linear_release_time: 0,
    };
    store_rule_config_state(storage, rule_type.as_str(), &rule_config_state);
    Ok(Response::new())
}

} // verus!
