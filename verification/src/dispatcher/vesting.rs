//! What a record may claim at a given time: the unlocked part at once and in
//! one piece, the locked part in equal instalments, one for each period that
//! has passed since the lock started.

use vstd::prelude::*;
use crate::dispatcher::state::{GlobalConfig, RegretInfo, UserState};
use crate::errors::OverflowError;
use crate::math::{lemma_from_nat, uint256_max, Uint256};

verus! {

/// The number of whole periods between the start of the lock and `now`, at
/// most the schedule's number of periods; zero until the lock has started.
pub open spec fn elapsed_periods(config: &GlobalConfig, now: u64) -> nat {
    if now > config.start_lock_period_time {
        let passed = (now - config.start_lock_period_time) / (config.duration_per_period as int);
        if passed > config.periods {
            config.periods as nat
        } else {
            passed as nat
        }
    } else {
        0
    }
}

/// The periods that have passed and are not settled yet; never negative.
pub open spec fn claimable_periods(config: &GlobalConfig, last_claimed_period: u64, now: u64) -> nat {
    let elapsed = elapsed_periods(config, now);
    if elapsed > last_claimed_period {
        (elapsed - last_claimed_period) as nat
    } else {
        0
    }
}

/// The period up to which a record is settled after a claim at `now`.
pub open spec fn settled_period(config: &GlobalConfig, last_claimed_period: u64, now: u64) -> u64 {
    if elapsed_periods(config, now) > last_claimed_period {
        elapsed_periods(config, now) as u64
    } else {
        last_claimed_period
    }
}

/// The locked amount that falls due at `now`: one instalment for each period
/// that has passed and is not settled.
pub open spec fn lock_claimable(
    config: &GlobalConfig,
    per_lock_amount: Uint256,
    last_claimed_period: u64,
    now: u64,
) -> nat {
    per_lock_amount.value() * claimable_periods(config, last_claimed_period, now)
}

/// The unlocked amount that a beneficiary can claim: all of it, once.
pub open spec fn user_unlock_claimable(state: &UserState) -> nat {
    if state.claimed_unlock_amount.value() == 0 {
        state.total_user_unlock_amount.value()
    } else {
        0
    }
}

/// The unlocked amount that can be claimed from the pool: what was forfeited
/// into it and is not claimed yet.
pub open spec fn regret_unlock_claimable(info: &RegretInfo) -> nat {
    if info.total_unlock_amount.value() > info.total_claimed_unlock_amount.value() {
        (info.total_unlock_amount.value() - info.total_claimed_unlock_amount.value()) as nat
    } else {
        0
    }
}

/// What a beneficiary's record may claim at `now`: the unlocked amount and the
/// locked amount.
pub open spec fn entitled_spec(config: &GlobalConfig, state: &UserState, now: u64) -> (nat, nat) {
    (
        user_unlock_claimable(state),
        lock_claimable(config, state.user_per_lock_amount, state.last_claimed_period, now),
    )
}

/// What a record may claim at one time.
#[derive(Clone, Copy, Debug, PartialEq, Eq, Structural)]
pub struct Entitlement {
    pub unlock_claimable: Uint256,
    pub lock_claimable: Uint256,
    /// The periods that the locked amount pays for.
    pub periods: u64,
    /// The period up to which the record is settled once this is claimed.
    pub settled_period: u64,
}

/// The number of whole periods that have passed at `now`.
pub fn current_period(config: &GlobalConfig, now: u64) -> (r: u64)
    requires
        config.wf(),
    ensures
        r == elapsed_periods(config, now),
        r <= config.periods,
{
    if now > config.start_lock_period_time {
        let passed: u64 = (now - config.start_lock_period_time) / config.duration_per_period;
        if passed > config.periods {
            config.periods
        } else {
            passed
        }
    } else {
        0
    }
}

/// The locked amount that falls due at `now` for a record with the given
/// instalment, settled up to `last_claimed_period`; the overflow where the
/// amount needs more than 256 bits.
pub fn lock_entitled(
    config: &GlobalConfig,
    per_lock_amount: Uint256,
    last_claimed_period: u64,
    now: u64,
) -> (r: Result<Entitlement, OverflowError>)
    requires
        config.wf(),
    ensures
        r is Ok <==> lock_claimable(config, per_lock_amount, last_claimed_period, now)
            <= uint256_max(),
        r is Ok ==> {
            &&& r->Ok_0.unlock_claimable.value() == 0
            &&& r->Ok_0.lock_claimable == Uint256::from_nat(
                lock_claimable(config, per_lock_amount, last_claimed_period, now),
            )
            &&& r->Ok_0.lock_claimable.value() == lock_claimable(
                config,
                per_lock_amount,
                last_claimed_period,
                now,
            )
            &&& r->Ok_0.periods == claimable_periods(config, last_claimed_period, now)
            &&& r->Ok_0.settled_period == settled_period(config, last_claimed_period, now)
        },
        r is Err ==> r->Err_0.operation == crate::errors::OverflowOperation::Mul,
{
    let elapsed: u64 = current_period(config, now);
    if elapsed > last_claimed_period {
        let periods: u64 = elapsed - last_claimed_period;
        let amount = per_lock_amount.checked_mul(Uint256::from(periods))?;
        proof {
            lemma_from_nat(amount.value());
        }
        Ok(
            Entitlement {
                unlock_claimable: Uint256::zero(),
                lock_claimable: amount,
                periods,
                settled_period: elapsed,
            },
        )
    } else {
        proof {
            lemma_from_nat(0);
            assert(per_lock_amount.value() * 0 == 0) by (nonlinear_arith);
        }
        Ok(
            Entitlement {
                unlock_claimable: Uint256::zero(),
                lock_claimable: Uint256::zero(),
                periods: 0,
                settled_period: last_claimed_period,
            },
        )
    }
}

/// What a beneficiary's record may claim at `now`; the overflow where the
/// locked amount needs more than 256 bits.
pub fn entitled(config: &GlobalConfig, state: &UserState, now: u64) -> (r: Result<
    Entitlement,
    OverflowError,
>)
    requires
        config.wf(),
    ensures
        r is Ok <==> entitled_spec(config, state, now).1 <= uint256_max(),
        r is Ok ==> {
            &&& r->Ok_0.unlock_claimable.value() == entitled_spec(config, state, now).0
            &&& r->Ok_0.lock_claimable.value() == entitled_spec(config, state, now).1
            &&& r->Ok_0.periods == claimable_periods(config, state.last_claimed_period, now)
            &&& r->Ok_0.settled_period == settled_period(config, state.last_claimed_period, now)
        },
        r is Err ==> r->Err_0.operation == crate::errors::OverflowOperation::Mul,
{
    let lock = lock_entitled(config, state.user_per_lock_amount, state.last_claimed_period, now)?;
    let unlock = if state.claimed_unlock_amount.is_zero() {
        state.total_user_unlock_amount
    } else {
        Uint256::zero()
    };
    Ok(Entitlement { unlock_claimable: unlock, ..lock })
}

} // verus!
