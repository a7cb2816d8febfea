//! The questions that the dispatcher answers without changing anything.

use vstd::prelude::*;
use crate::addr::Addr;
use crate::dispatcher::msg::{GlobalInfosResponse, RegretInfoResponse, UserInfoResponse};
use crate::dispatcher::state::{read_global_config, read_global_state, read_regret_info,
    read_user_by_page, read_user_state, user_page_of, GlobalConfig, Storage, StorageView,
    UserState};
use crate::dispatcher::vesting::{claimable_periods, current_period, entitled, entitled_spec,
    settled_period};
use crate::errors::{OverflowError, OverflowOperation, StdError};
use crate::math::{uint256_max, Uint256};

verus! {

/// What a record could claim at `now`, the unlocked amount and the locked
/// amount: its entitlement, and nothing after a forfeiture or before the
/// start time, when no claim is taken.
pub open spec fn claimable_now(config: &GlobalConfig, state: &UserState, now: u64) -> (nat, nat) {
    if state.is_regret || now < config.start_time {
        (0, 0)
    } else {
        entitled_spec(config, state, now)
    }
}

/// Whether `info` is the answer for the account at `now`: the record filed
/// under it, or the blank record; what a claim at `now` would transfer, in
/// its two parts; and the period up to which that claim would settle the
/// record.
pub open spec fn is_user_info(s: &StorageView, now: u64, user: &Addr, info: &UserInfoResponse) -> bool {
    &&& s.user_states.contains_key(user.key()) ==> info.state == s.user_states[user.key()]
    &&& !s.user_states.contains_key(user.key()) ==> info.state.is_blank()
    &&& info.current_period == settled_period(&s.global_config, info.state.last_claimed_period, now)
    &&& info.claimable_unlock_amount.value() == claimable_now(&s.global_config, &info.state, now).0
    &&& info.claimable_lock_amount.value() == claimable_now(&s.global_config, &info.state, now).1
}

/// Whether the locked amount to show for the account fits 256 bits.
pub open spec fn user_info_fits(s: &StorageView, now: u64, user: &Addr) -> bool {
    s.user_states.contains_key(user.key()) ==> claimable_now(
        &s.global_config,
        &s.user_states[user.key()],
        now,
    ).1 <= uint256_max()
}

/// The configuration and the totals as they are kept.
pub fn query_global_infos(storage: &Storage) -> (r: GlobalInfosResponse)
    ensures
        r.config == storage.global_config,
        r.state == storage.global_state,
{
    let config = read_global_config(storage);
    let state = read_global_state(storage);
    GlobalInfosResponse { config, state }
}

/// The record of an account with what a claim at `current_time` would
/// transfer and the period up to which it would settle the record; the
/// overflow where the locked amount to show needs more than 256 bits.
pub fn query_user_info(storage: &Storage, current_time: u64, user: &Addr) -> (r: Result<
    UserInfoResponse,
    StdError,
>)
    requires
        storage.wf(),
    ensures
        r is Ok <==> user_info_fits(&storage@, current_time, user),
        r is Ok ==> is_user_info(&storage@, current_time, user, &r->Ok_0),
        r is Err ==> r->Err_0 == (StdError::Overflow {
            source: OverflowError { operation: OverflowOperation::Mul },
        }),
{
    let state = read_user_state(storage, user);
    let config = read_global_config(storage);
    if state.is_regret || current_time < config.start_time {
        let elapsed: u64 = current_period(&config, current_time);
        let period: u64 = if elapsed > state.last_claimed_period {
            elapsed
        } else {
            state.last_claimed_period
        };
        return Ok(
            UserInfoResponse {
                state,
                current_period: period,
                claimable_lock_amount: Uint256::zero(),
                claimable_unlock_amount: Uint256::zero(),
            },
        );
    }
    proof {
        if !storage@.user_states.contains_key(user.key()) {
            assert(0 * claimable_periods(&config, state.last_claimed_period, current_time) == 0)
                by (nonlinear_arith);
        }
    }
    match entitled(&config, &state, current_time) {
        Ok(due) => Ok(
            UserInfoResponse {
                state,
                current_period: due.settled_period,
                claimable_lock_amount: due.lock_claimable,
                claimable_unlock_amount: due.unlock_claimable,
            },
        ),
        Err(e) => Err(StdError::overflow(e)),
    }
}

/// The pool as it is kept.
pub fn query_regret_info(storage: &Storage) -> (r: RegretInfoResponse)
    ensures
        r.info == storage.regret_info,
{
    let info = read_regret_info(storage);
    RegretInfoResponse { info }
}

/// The answers for the accounts of one page of the index, in the order of
/// the index; the overflow where one of them cannot be shown.
pub fn query_user_infos(
    storage: &Storage,
    current_time: u64,
    start_after: Option<Addr>,
    limit: Option<u32>,
) -> (r: Result<Vec<UserInfoResponse>, StdError>)
    requires
        storage.wf(),
    ensures
        r is Ok <==> (forall|i: int|
            0 <= i < user_page_of(storage, start_after, limit).len() ==> user_info_fits(
                &storage@,
                current_time,
                &(#[trigger] user_page_of(storage, start_after, limit)[i]).1,
            )),
        r is Ok ==> {
            &&& r->Ok_0@.len() == user_page_of(storage, start_after, limit).len()
            &&& forall|i: int|
                0 <= i < r->Ok_0@.len() ==> is_user_info(
                    &storage@,
                    current_time,
                    &user_page_of(storage, start_after, limit)[i].1,
                    &(#[trigger] r->Ok_0@[i]),
                )
        },
        r is Err ==> r->Err_0 == (StdError::Overflow {
            source: OverflowError { operation: OverflowOperation::Mul },
        }),
{
    let mut res: Vec<UserInfoResponse> = Vec::new();
    let addresses = read_user_by_page(storage, start_after, limit);
    let ghost page = user_page_of(storage, start_after, limit);
    let mut i: usize = 0;
    while i < addresses.len()
        invariant
            storage.wf(),
            i <= addresses@.len(),
            page == user_page_of(storage, start_after, limit),
            addresses@.len() == page.len(),
            forall|j: int| 0 <= j < addresses@.len() ==> #[trigger] addresses@[j] == page[j].1,
            res@.len() == i,
            forall|j: int|
                0 <= j < i ==> is_user_info(&storage@, current_time, &page[j].1, &(#[trigger] res@[j])),
            forall|j: int|
                0 <= j < i ==> user_info_fits(&storage@, current_time, &(#[trigger] page[j]).1),
        decreases addresses@.len() - i,
    {
        let info = match query_user_info(storage, current_time, &addresses[i]) {
            Ok(v) => v,
            Err(e) => {
                proof {
                    assert(!user_info_fits(&storage@, current_time, &page[i as int].1));
                }
                return Err(e);
            },
        };
        res.push(info);
        i += 1;
    }
    Ok(res)
}

} // verus!
