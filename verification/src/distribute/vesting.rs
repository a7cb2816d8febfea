//! What may be claimed under a rule at a given time: the lump that is
//! released at the start, and what has accrued of the linear release.
//!
//! The lump is due as soon as the lock has started, and at once where no
//! start of the lock is set; no other time decides it. The flag
//! `is_start_release` only records that a claim has counted the lump as
//! released, so that what is left after the end of the linear release is
//! reckoned right; it changes nothing in what is due. The linear release is
//! reckoned from its start as a whole, and what was claimed is taken off.

use vstd::prelude::*;
use crate::distribute::helper::BASE_RATE_12;
use crate::distribute::msg::QueryClaimableInfoResponse;
use crate::distribute::state::{RuleConfig, RuleConfigState};
use crate::errors::{OverflowError, OverflowOperation};

verus! {

/// Whether the rule's lock has not started yet at `now`.
pub open spec fn gated(rule: &RuleConfig, now: u64) -> bool {
    rule.lock_start_time != 0 && rule.lock_start_time > now
}

/// Whether nothing is reckoned at all: all of the rule's total is claimed, or
/// the lock has not started.
pub open spec fn nothing_due(rule: &RuleConfig, state: &RuleConfigState, now: u64) -> bool {
    state.claimed_amount == rule.rule_total_amount || gated(rule, now)
}

/// The time from which the linear release is reckoned: its start, or the
/// time of the last settlement where that is later.
pub open spec fn linear_from(rule: &RuleConfig, state: &RuleConfigState) -> u64 {
    if state.last_claim_linear_release_time > rule.start_linear_release_time {
        state.last_claim_linear_release_time
    } else {
        rule.start_linear_release_time
    }
}

/// The linear release at `now`: nothing up to its start; between start and
/// end the seconds passed times the rate, scaled back and rounded down; after
/// the end all of it but what counts as released, whatever the time.
pub open spec fn linear_release(rule: &RuleConfig, state: &RuleConfigState, now: u64) -> int {
    if now > rule.start_linear_release_time {
        if now > rule.end_linear_release_time {
            rule.unlock_linear_release_amount + (if state.is_start_release {
                rule.start_release_amount as int
            } else {
                0
            }) - state.released_amount
        } else {
            ((now - linear_from(rule, state)) * rule.linear_release_per_second) / (
            BASE_RATE_12 as int)
        }
    } else {
        0
    }
}

/// The arithmetic step of the reckoning that does not fit 128 bits or would
/// go below zero, if one does not.
pub open spec fn claimable_failure(rule: &RuleConfig, state: &RuleConfigState, now: u64) -> Option<
    OverflowOperation,
> {
    let linear = linear_release(rule, state, now);
    if state.claimed_amount > rule.rule_total_amount {
        Some(OverflowOperation::Sub)
    } else if nothing_due(rule, state, now) {
        None
    } else if now > rule.start_linear_release_time && now > rule.end_linear_release_time
        && state.is_start_release && rule.unlock_linear_release_amount
        + rule.start_release_amount > u128::MAX {
        Some(OverflowOperation::Add)
    } else if now > rule.start_linear_release_time && now > rule.end_linear_release_time && linear
        < 0 {
        Some(OverflowOperation::Sub)
    } else if now > rule.start_linear_release_time && now <= rule.end_linear_release_time && now
        < linear_from(rule, state) {
        Some(OverflowOperation::Sub)
    } else if now > rule.start_linear_release_time && now <= rule.end_linear_release_time && (now
        - linear_from(rule, state)) * rule.linear_release_per_second > u128::MAX {
        Some(OverflowOperation::Mul)
    } else if rule.start_release_amount + linear > u128::MAX {
        Some(OverflowOperation::Add)
    } else if rule.start_release_amount + linear < state.claimed_amount {
        Some(OverflowOperation::Sub)
    } else {
        None
    }
}

/// What may be claimed under the rule at `now`: the lump and the linear
/// release, and the two together less what is claimed already; nothing where
/// nothing is due.
pub open spec fn entitled_spec(rule: &RuleConfig, state: &RuleConfigState, now: u64) -> QueryClaimableInfoResponse {
    if nothing_due(rule, state, now) {
        QueryClaimableInfoResponse { can_claim_amount: 0, release_amount: 0, linear_release_amount: 0 }
    } else {
        QueryClaimableInfoResponse {
            can_claim_amount: (rule.start_release_amount + linear_release(rule, state, now)
                - state.claimed_amount) as u128,
            release_amount: rule.start_release_amount,
            linear_release_amount: linear_release(rule, state, now) as u128,
        }
    }
}

/// The overflow in the given operation.
pub fn overflow(operation: OverflowOperation) -> (r: OverflowError)
    ensures
        r == (OverflowError { operation }),
{
    OverflowError { operation }
}

/// What may be claimed under the rule at `now`, or the arithmetic step that
/// does not fit.
pub fn entitled(rule: &RuleConfig, state: &RuleConfigState, now: u64) -> (r: Result<
    QueryClaimableInfoResponse,
    OverflowError,
>)
    ensures
        match claimable_failure(rule, state, now) {
            Some(operation) => r == Err::<QueryClaimableInfoResponse, OverflowError>(
                OverflowError { operation },
            ),
            None => r == Ok::<QueryClaimableInfoResponse, OverflowError>(
                entitled_spec(rule, state, now),
            ),
        },
{
    let total_can_claimed_amount = match rule.rule_total_amount.checked_sub(state.claimed_amount) {
        Some(v) => v,
        None => {
            return Err(overflow(OverflowOperation::Sub));
        },
    };
    if total_can_claimed_amount == 0 {
        return Ok(
            QueryClaimableInfoResponse {
                can_claim_amount: 0,
                release_amount: 0,
                linear_release_amount: 0,
            },
        );
    }
    if rule.lock_start_time != 0 && rule.lock_start_time > now {
        return Ok(
            QueryClaimableInfoResponse {
                can_claim_amount: 0,
                release_amount: 0,
                linear_release_amount: 0,
            },
        );
    }
    let release_amount: u128 = rule.start_release_amount;
    let mut linear_release_amount: u128 = 0;
    if now > rule.start_linear_release_time {
        let start_calc_time: u64 = if state.last_claim_linear_release_time
            > rule.start_linear_release_time {
            state.last_claim_linear_release_time
        } else {
            rule.start_linear_release_time
        };
        if now > rule.end_linear_release_time {
            let full: u128 = if state.is_start_release {
                match rule.unlock_linear_release_amount.checked_add(rule.start_release_amount) {
                    Some(v) => v,
                    None => {
                        return Err(overflow(OverflowOperation::Add));
                    },
                }
            } else {
                rule.unlock_linear_release_amount
            };
            linear_release_amount = match full.checked_sub(state.released_amount) {
                Some(v) => v,
                None => {
                    return Err(overflow(OverflowOperation::Sub));
                },
            };
        } else {
            let diff_time: u64 = match now.checked_sub(start_calc_time) {
                Some(v) => v,
                None => {
                    return Err(overflow(OverflowOperation::Sub));
                },
            };
            let scaled: u128 = match (diff_time as u128).checked_mul(rule.linear_release_per_second) {
                Some(v) => v,
                None => {
                    return Err(overflow(OverflowOperation::Mul));
                },
            };
            linear_release_amount = scaled / BASE_RATE_12;
        }
    }
    let released: u128 = match release_amount.checked_add(linear_release_amount) {
        Some(v) => v,
        None => {
            return Err(overflow(OverflowOperation::Add));
        },
    };
    let can_claim_amount: u128 = match released.checked_sub(state.claimed_amount) {
        Some(v) => v,
        None => {
            return Err(overflow(OverflowOperation::Sub));
        },
    };
    Ok(QueryClaimableInfoResponse { can_claim_amount, release_amount, linear_release_amount })
}

} // verus!
