//! The distributor as a state machine: for each operation, on which states
//! it is refused and with what, and the state it leaves where it is not.

use vstd::prelude::*;
use crate::addr::Addr;
use crate::distribute::error::ContractError;
use crate::distribute::helper::BASE_RATE_12;
use crate::distribute::msg::RuleConfigMsg;
use crate::distribute::state::{DistributeConfig, RuleConfig, RuleConfigState, StorageView};
use crate::distribute::vesting::{claimable_failure, entitled_spec, gated};
use crate::errors::{OverflowError, OverflowOperation, StdError};
use crate::response::TokenMsg;

verus! {

/// Why a claim under a rule at `now` is refused, if it is: the sender is not
/// the rule's owner; the claimed amount is beyond the total; something is
/// left to claim and the lock has not started; a step of the reckoning does
/// not fit; the amounts do not fit or pass the rule's total. The first that
/// holds counts. Where all is claimed nothing is refused to the owner: the
/// claim goes through with nothing due.
pub open spec fn claim_failure(rule: &RuleConfig, state: &RuleConfigState, now: u64, sender: &Addr) -> Option<
    ContractError,
> {
    let info = entitled_spec(rule, state, now);
    if rule.rule_owner@ != sender@ {
        Some(ContractError::Unauthorized {  })
    } else if state.claimed_amount > rule.rule_total_amount {
        Some(ContractError::OverflowError(OverflowError { operation: OverflowOperation::Sub }))
    } else if state.claimed_amount != rule.rule_total_amount && gated(rule, now) {
        Some(ContractError::NotStartClaimTimeError {  })
    } else {
        match claimable_failure(rule, state, now) {
            Some(operation) => Some(
                ContractError::Std(StdError::Overflow { source: OverflowError { operation } }),
            ),
            None => if info.release_amount > 0 && !state.is_start_release && state.released_amount
                + info.release_amount > u128::MAX {
                Some(
                    ContractError::OverflowError(OverflowError { operation: OverflowOperation::Add }),
                )
            } else if state.claimed_amount + info.can_claim_amount > u128::MAX {
                Some(
                    ContractError::OverflowError(OverflowError { operation: OverflowOperation::Add }),
                )
            } else if state.claimed_amount + info.can_claim_amount > rule.rule_total_amount {
                Some(
                    ContractError::AmountClaimOverTotal(
                        (state.claimed_amount + info.can_claim_amount) as u128,
                        rule.rule_total_amount,
                    ),
                )
            } else {
                None
            },
        }
    }
}

/// A rule's state once what is due at `now` is claimed: the lump counted as
/// released the first time, and the claimed amount raised by what was due.
pub open spec fn claimed_state(rule: &RuleConfig, state: &RuleConfigState, now: u64) -> RuleConfigState {
    let info = entitled_spec(rule, state, now);
    if info.release_amount > 0 && !state.is_start_release {
        RuleConfigState {
            is_start_release: true,
            released_amount: (state.released_amount + info.release_amount) as u128,
            claimed_amount: (state.claimed_amount + info.can_claim_amount) as u128,
            ..*state
        }
    } else {
        RuleConfigState {
            claimed_amount: (state.claimed_amount + info.can_claim_amount) as u128,
            ..*state
        }
    }
}

/// Whether `m` is the instruction to mint `amount` of `token` for `sender`,
/// naming the sender as the contract to notify and passing `msg` on.
pub open spec fn is_mint_for(
    m: &TokenMsg,
    token: &Addr,
    sender: &Addr,
    amount: u128,
    msg: Option<Vec<u8>>,
) -> bool {
    &&& *m is Mint
    &&& m->Mint_contract_addr == *token
    &&& m->Mint_recipient == *sender
    &&& m->Mint_amount == amount
    &&& m->Mint_contract is Some
    &&& m->Mint_contract->Some_0@ == sender@
    &&& m->Mint_msg == msg
}

/// Why the derived fields of a rule cannot be worked out, if they cannot:
/// the end of the linear release does not fit, the scaled amount does not
/// fit, or the release lasts no time.
pub open spec fn derive_failure(msg: &RuleConfigMsg) -> Option<StdError> {
    if msg.start_linear_release_time + msg.unlock_linear_release_time > u64::MAX {
        Some(StdError::Overflow { source: OverflowError { operation: OverflowOperation::Add } })
    } else if msg.unlock_linear_release_amount * BASE_RATE_12 > u128::MAX {
        Some(StdError::Overflow { source: OverflowError { operation: OverflowOperation::Mul } })
    } else if msg.unlock_linear_release_time == 0 {
        Some(StdError::DivideByZero {  })
    } else {
        None
    }
}

/// The rule that a message asks for, with its derived fields: the end of
/// the linear release, and the rate, which is the amount, scaled, divided by
/// the duration.
pub open spec fn derived_rule(msg: &RuleConfigMsg) -> RuleConfig {
    RuleConfig {
        rule_name: msg.rule_name,
        rule_owner: msg.rule_owner,
        rule_total_amount: msg.rule_total_amount,
        start_release_amount: msg.start_release_amount,
        lock_start_time: msg.lock_start_time,
        lock_end_time: msg.lock_end_time,
        start_linear_release_time: msg.start_linear_release_time,
        end_linear_release_time: (msg.start_linear_release_time
            + msg.unlock_linear_release_time) as u64,
        unlock_linear_release_amount: msg.unlock_linear_release_amount,
        unlock_linear_release_time: msg.unlock_linear_release_time,
        linear_release_per_second: ((msg.unlock_linear_release_amount * BASE_RATE_12) / (
        msg.unlock_linear_release_time as int)) as u128,
    }
}

/// The ways in which a new rule is refused.
pub enum AddRuleFailure {
    /// The sender is not the governor.
    Unauthorized,
    /// A rule of that type exists.
    AlreadyExists,
    /// The rule's total is zero.
    ZeroTotal,
    /// The rules' totals together do not fit 128 bits.
    TotalOverflow,
    /// The rules' totals together pass the budget.
    OverBudget,
    /// The derived fields cannot be worked out.
    Derive(StdError),
}

impl AddRuleFailure {
    /// Whether `e` is the error that reports this refusal.
    pub open spec fn reported_by(&self, e: &ContractError) -> bool {
        match self {
            AddRuleFailure::Unauthorized => *e == (ContractError::Unauthorized {  }),
            AddRuleFailure::AlreadyExists => e.is_generic("rule config already exist"@),
            AddRuleFailure::ZeroTotal => e.is_generic(
                "rule total amount must be greater than zero"@,
            ),
            AddRuleFailure::TotalOverflow => *e == ContractError::OverflowError(
                OverflowError { operation: OverflowOperation::Add },
            ),
            AddRuleFailure::OverBudget => e.is_generic(
                "rule total amount over distribute token amount"@,
            ),
            AddRuleFailure::Derive(cause) => *e == ContractError::Std(*cause),
        }
    }
}

/// Why a new rule is refused, if it is. The first reason that holds counts.
pub open spec fn add_rule_failure(
    s: &StorageView,
    sender: &Addr,
    key: Seq<u8>,
    msg: &RuleConfigMsg,
) -> Option<AddRuleFailure> {
    if s.distribute_config.gov@ != sender@ {
        Some(AddRuleFailure::Unauthorized)
    } else if s.rule_config.contains_key(key) {
        Some(AddRuleFailure::AlreadyExists)
    } else if msg.rule_total_amount == 0 {
        Some(AddRuleFailure::ZeroTotal)
    } else if msg.rule_total_amount + s.distribute_config.rules_total_amount > u128::MAX {
        Some(AddRuleFailure::TotalOverflow)
    } else if msg.rule_total_amount + s.distribute_config.rules_total_amount
        > s.distribute_config.total_amount {
        Some(AddRuleFailure::OverBudget)
    } else {
        match derive_failure(msg) {
            Some(cause) => Some(AddRuleFailure::Derive(cause)),
            None => None,
        }
    }
}

/// The state that a new rule leaves: the rule and a fresh state filed under
/// its type, and its total added to the rules' totals.
pub open spec fn add_rule_next(s: &StorageView, key: Seq<u8>, msg: &RuleConfigMsg) -> StorageView {
    StorageView {
        distribute_config: DistributeConfig {
            rules_total_amount: (msg.rule_total_amount
                + s.distribute_config.rules_total_amount) as u128,
            ..s.distribute_config
        },
        rule_config: s.rule_config.insert(key, derived_rule(msg)),
        rule_config_state: s.rule_config_state.insert(key, RuleConfigState::fresh()),
    }
}

} // verus!
