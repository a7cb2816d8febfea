//! The operations that change what the dispatcher keeps. Each one checks
//! everything first and writes only when nothing is left to refuse.

use vstd::prelude::*;
use crate::addr::{is_empty_str, lemma_key_injective, Addr};
use crate::dispatcher::error::ContractError;
use crate::dispatcher::model::{add_user_failure, add_user_next, add_users_failure,
    add_users_next, add_users_outcome, claimed_global, claimed_regret, claimed_user,
    new_user_state, paged_into, regret_claim_amount, regret_claim_failure, regret_claim_next,
    register_failure, registered_into, registered_totals, update_config_failure, updated_config,
    user_claim_amount, user_claim_failure, user_claim_next, user_regret_failure, user_regret_next};
use crate::dispatcher::msg::{AddUserMsg, UpdateGlobalConfigMsg};
use crate::dispatcher::state::{read_global_config, read_global_state, read_regret_info,
    read_user_state, store_global_config, store_global_state, store_regret_info,
    store_user_by_page, store_user_state, GlobalConfig, GlobalState, Storage, StorageView,
    UserState};
use crate::dispatcher::vesting::{lock_claimable, lock_entitled, regret_unlock_claimable,
    user_unlock_claimable};
use crate::math::{lemma_from_nat, Uint256};
use crate::response::{Response, TokenMsg};

verus! {

/// The instruction that transfers a claimed amount.
pub open spec fn transfer_of(contract_addr: &Addr, recipient: &Addr, amount: nat) -> TokenMsg {
    TokenMsg::Transfer {
        contract_addr: *contract_addr,
        recipient: *recipient,
        amount: amount as u128,
    }
}

/// Replaces the fields of the configuration that the message names. Only the
/// governor may, and no cap may go below what is registered.
pub fn update_config(storage: &mut Storage, sender: &Addr, msg: UpdateGlobalConfigMsg) -> (r:
    Result<Response, ContractError>)
    ensures
        match update_config_failure(&old(storage)@, sender, &msg) {
            Some(e) => r == Err::<Response, ContractError>(e) && *final(storage) == *old(storage),
            None => {
                &&& r is Ok
                &&& r->Ok_0.messages@.len() == 0
                &&& *final(storage) == (Storage {
                    global_config: updated_config(&old(storage).global_config, &msg),
                    ..*old(storage)
                })
            },
        },
        old(storage).wf() ==> final(storage).wf(),
{
    let mut config = read_global_config(storage);
    if config.gov != *sender {
        return Err(ContractError::Unauthorized {  });
    }
    if let Some(gov) = msg.gov {
        config.gov = gov;
    }
    if let Some(total_lock_amount) = msg.total_lock_amount {
        let global_state = read_global_state(storage);
        if total_lock_amount.lt(&global_state.total_user_lock_amount) {
            return Err(ContractError::InvalidTotalLockAmount {  });
        }
        config.total_lock_amount = total_lock_amount;
    }
    if let Some(total_unlock_amount) = msg.total_unlock_amount {
        let global_state = read_global_state(storage);
        if total_unlock_amount.lt(&global_state.total_user_unlock_amount) {
            return Err(ContractError::InvalidTotalUnlockAmount {  });
        }
        config.total_unlock_amount = total_unlock_amount;
    }
    if let Some(claim_token) = msg.claim_token {
        config.claim_token = claim_token;
    }
    if let Some(start_time) = msg.start_time {
        config.start_time = start_time;
    }
    if let Some(end_regret_time) = msg.end_regret_time {
        config.end_regret_time = end_regret_time;
    }
    if let Some(regret_token_receiver) = msg.regret_token_receiver {
        config.regret_token_receiver = regret_token_receiver;
    }
    store_global_config(storage, &config);
    Ok(Response::new())
}

/// The record that a registration creates.
pub fn fresh_user_state(config: &GlobalConfig, user_msg: &AddUserMsg) -> (r: UserState)
    requires
        config.wf(),
    ensures
        r == new_user_state(config, user_msg),
{
    let user_per_lock_amount = match user_msg.lock_amount.checked_div(Uint256::from(config.periods)) {
        Some(v) => v,
        None => Uint256::zero(),
    };
    proof {
        lemma_from_nat(user_per_lock_amount.value());
    }
    UserState {
        user: user_msg.user.clone(),
        total_user_unlock_amount: user_msg.unlock_amount,
        total_user_lock_amount: user_msg.lock_amount,
        claimed_unlock_amount: Uint256::zero(),
        claimed_lock_amount: Uint256::zero(),
        last_claimed_period: 0,
        user_per_lock_amount,
        is_regret: false,
        regret_time: 0,
    }
}

/// Checks a registration against the totals and the record found under the
/// account, and works out the totals that it leaves.
pub fn check_single_user(
    config: &GlobalConfig,
    global_state: &GlobalState,
    user_state: &UserState,
    user_msg: &AddUserMsg,
) -> (r: Result<GlobalState, ContractError>)
    ensures
        match register_failure(
            config,
            global_state,
            user_state.user@.len() > 0,
            user_state,
            user_msg,
        ) {
            Some(e) => r == Err::<GlobalState, ContractError>(e),
            None => r == Ok::<GlobalState, ContractError>(
                registered_totals(global_state, user_state, user_msg),
            ),
        },
{
    let mut totals = *global_state;
    if user_msg.lock_amount.is_zero() && user_msg.unlock_amount.is_zero() {
        return Err(ContractError::UserAmountIsZero(user_msg.user.clone()));
    }
    if !user_msg.replace {
        if !is_empty_str(user_state.user.as_str()) {
            return Err(ContractError::UserAlreadyExists(user_msg.user.clone()));
        }
    } else {
        if is_empty_str(user_state.user.as_str()) {
            return Err(ContractError::UserNotExists(user_msg.user.clone()));
        }
        if user_state.is_regret {
            return Err(ContractError::UserAlreadyRegret(user_msg.user.clone()));
        }
        if !user_state.claimed_lock_amount.is_zero() || !user_state.claimed_unlock_amount.is_zero() {
            return Err(ContractError::UserAlreadyClaimed(user_msg.user.clone()));
        }
        totals.total_user_lock_amount = match totals.total_user_lock_amount.checked_sub(
            user_state.total_user_lock_amount,
        ) {
            Ok(v) => v,
            Err(e) => {
                return Err(ContractError::OverflowError(e));
            },
        };
        totals.total_user_unlock_amount = match totals.total_user_unlock_amount.checked_sub(
            user_state.total_user_unlock_amount,
        ) {
            Ok(v) => v,
            Err(e) => {
                return Err(ContractError::OverflowError(e));
            },
        };
    }
    totals.total_user_unlock_amount = match totals.total_user_unlock_amount.checked_add(
        user_msg.unlock_amount,
    ) {
        Ok(v) => v,
        Err(e) => {
            return Err(ContractError::OverflowError(e));
        },
    };
    if totals.total_user_unlock_amount.gt(&config.total_unlock_amount) {
        return Err(ContractError::UserUnlockAmountTooLarge(user_msg.user.clone()));
    }
    totals.total_user_lock_amount = match totals.total_user_lock_amount.checked_add(
        user_msg.lock_amount,
    ) {
        Ok(v) => v,
        Err(e) => {
            return Err(ContractError::OverflowError(e));
        },
    };
    if totals.total_user_lock_amount.gt(&config.total_lock_amount) {
        return Err(ContractError::UserLockAmountTooLarge(user_msg.user.clone()));
    }
    proof {
        lemma_from_nat(totals.total_user_unlock_amount.value());
        lemma_from_nat(totals.total_user_lock_amount.value());
    }
    Ok(totals)
}

/// Registers one beneficiary, or replaces its record where the message says
/// so and nothing was claimed or forfeited under it.
pub fn _add_single_user(storage: &mut Storage, user_msg: &AddUserMsg) -> (r: Result<
    (),
    ContractError,
>)
    requires
        old(storage).wf(),
    ensures
        match add_user_failure(&old(storage)@, user_msg) {
            Some(e) => r == Err::<(), ContractError>(e) && *final(storage) == *old(storage),
            None => r is Ok && final(storage)@ == add_user_next(&old(storage)@, user_msg),
        },
        final(storage).wf(),
{
    let global_config = read_global_config(storage);
    let global_state = read_global_state(storage);
    let user_state = read_user_state(storage, &user_msg.user);
    let totals = check_single_user(&global_config, &global_state, &user_state, user_msg)?;
    let fresh = fresh_user_state(&global_config, user_msg);
    if !user_msg.replace {
        store_user_by_page(storage, &user_msg.user);
    }
    store_user_state(storage, &user_msg.user, &fresh);
    store_global_state(storage, &totals);
    Ok(())
}

/// The record under an account once the first `upto` registrations of a run
/// have put their records in place: that of the last of them for the
/// account, or else the one in storage, or else the blank record.
fn staged_user_state(
    storage: &Storage,
    config: &GlobalConfig,
    msgs: &Vec<AddUserMsg>,
    upto: usize,
    user: &Addr,
) -> (r: UserState)
    requires
        config.wf(),
        upto <= msgs@.len(),
    ensures
        ({
            let staged = registered_into(storage@.user_states, config, msgs@.take(upto as int));
            &&& staged.contains_key(user.key()) ==> r == staged[user.key()]
            &&& !staged.contains_key(user.key()) ==> r.is_blank()
        }),
{
    let ghost staged = registered_into(storage@.user_states, config, msgs@.take(upto as int));
    let mut j: usize = upto;
    while j > 0
        invariant
            config.wf(),
            j <= upto <= msgs@.len(),
            staged == registered_into(storage@.user_states, config, msgs@.take(upto as int)),
            staged.contains_key(user.key()) == registered_into(
                storage@.user_states,
                config,
                msgs@.take(j as int),
            ).contains_key(user.key()),
            staged[user.key()] == registered_into(
                storage@.user_states,
                config,
                msgs@.take(j as int),
            )[user.key()],
        decreases j,
    {
        j -= 1;
        proof {
            assert(msgs@.take(j + 1).drop_last() =~= msgs@.take(j as int));
            assert(msgs@.take(j + 1).last() == msgs@[j as int]);
            lemma_key_injective(&msgs@[j as int].user, user);
            assert(registered_into(storage@.user_states, config, msgs@.take(j + 1))
                == registered_into(storage@.user_states, config, msgs@.take(j as int)).insert(
                msgs@[j as int].user.key(),
                new_user_state(config, &msgs@[j as int]),
            ));
        }
        if msgs[j].user == *user {
            return fresh_user_state(config, &msgs[j]);
        }
    }
    proof {
        assert(msgs@.take(0).len() == 0);
    }
    read_user_state(storage, user)
}

/// Registers the beneficiaries in the order given, all of them or, where one
/// is refused, none. Only the governor may.
pub fn add_users(storage: &mut Storage, sender: &Addr, msg: Vec<AddUserMsg>) -> (r: Result<
    Response,
    ContractError,
>)
    requires
        old(storage).wf(),
    ensures
        match add_users_outcome(&old(storage)@, sender, msg@) {
            Some(e) => r == Err::<Response, ContractError>(e) && *final(storage) == *old(storage),
            None => {
                &&& r is Ok
                &&& r->Ok_0.messages@.len() == 0
                &&& final(storage)@ == add_users_next(&old(storage)@, msg@)
            },
        },
        final(storage).wf(),
{
    let config = read_global_config(storage);
    if config.gov != *sender {
        return Err(ContractError::Unauthorized {  });
    }
    let ghost start = storage@;
    let mut totals = read_global_state(storage);
    let mut cur: Ghost<StorageView> = Ghost(start);
    let mut i: usize = 0;
    proof {
        assert(msg@.skip(0) =~= msg@);
        assert(msg@.take(0).len() == 0);
    }
    while i < msg.len()
        invariant
            i <= msg@.len(),
            config.wf(),
            config == start.global_config,
            config.gov@ == sender@,
            *storage == *old(storage),
            start == old(storage)@,
            cur@.global_config == start.global_config,
            cur@.regret_info == start.regret_info,
            cur@.global_state == totals,
            cur@.user_states == registered_into(start.user_states, &config, msg@.take(i as int)),
            cur@.user_page == paged_into(start.user_page, msg@.take(i as int)),
            add_users_failure(&start, msg@) == add_users_failure(&cur@, msg@.skip(i as int)),
            add_users_next(&start, msg@) == add_users_next(&cur@, msg@.skip(i as int)),
        decreases msg@.len() - i,
    {
        let existing = staged_user_state(storage, &config, &msg, i, &msg[i].user);
        proof {
            assert(msg@.skip(i as int)[0] == msg@[i as int]);
            assert(msg@.skip(i as int).drop_first() =~= msg@.skip(i + 1));
            assert(msg@.take(i + 1).drop_last() =~= msg@.take(i as int));
            assert(msg@.take(i + 1).last() == msg@[i as int]);
            let one = msg@[i as int];
            let key = one.user.key();
            if cur@.user_states.contains_key(key) {
                assert(existing == cur@.user_states[key]);
            } else {
                assert(existing.is_blank());
                assert(!cur@.registered(&one.user));
            }
        }
        totals = match check_single_user(&config, &totals, &existing, &msg[i]) {
            Ok(v) => v,
            Err(e) => {
                return Err(e);
            },
        };
        proof {
            cur@ = add_user_next(&cur@, &msg@[i as int]);
        }
        i += 1;
    }
    proof {
        assert(msg@.skip(i as int).len() == 0);
        assert(msg@.take(i as int) =~= msg@);
    }
    let mut j: usize = 0;
    while j < msg.len()
        invariant
            j <= msg@.len(),
            config.wf(),
            config == start.global_config,
            storage@.global_config == start.global_config,
            storage@.regret_info == start.regret_info,
            storage@.global_state == start.global_state,
            storage@.user_states == registered_into(start.user_states, &config, msg@.take(j as int)),
            storage@.user_page == paged_into(start.user_page, msg@.take(j as int)),
        decreases msg@.len() - j,
    {
        let fresh = fresh_user_state(&config, &msg[j]);
        proof {
            assert(msg@.take(j + 1).drop_last() =~= msg@.take(j as int));
            assert(msg@.take(j + 1).last() == msg@[j as int]);
        }
        if !msg[j].replace {
            store_user_by_page(storage, &msg[j].user);
        }
        store_user_state(storage, &msg[j].user, &fresh);
        j += 1;
    }
    proof {
        assert(msg@.take(j as int) =~= msg@);
    }
    store_global_state(storage, &totals);
    Ok(Response::new())
}

/// Forfeits the sender's entitlement into the pool. Allowed once, before
/// anything is claimed, from the start time until the lock starts or the
/// window ends.
pub fn user_regret(storage: &mut Storage, current_time: u64, sender: &Addr) -> (r: Result<
    Response,
    ContractError,
>)
    ensures
        match user_regret_failure(&old(storage)@, current_time, sender) {
            Some(e) => r == Err::<Response, ContractError>(e) && *final(storage) == *old(storage),
            None => {
                &&& r is Ok
                &&& r->Ok_0.messages@.len() == 0
                &&& final(storage)@ == user_regret_next(&old(storage)@, current_time, sender)
                &&& final(storage).user_page == old(storage).user_page
            },
        },
        old(storage).wf() ==> final(storage).wf(),
{
    let config = read_global_config(storage);
    if config.start_time > current_time {
        return Err(ContractError::RegretTimeNotStart {  });
    }
    let mut user_state = read_user_state(storage, sender);
    if is_empty_str(user_state.user.as_str()) {
        return Err(ContractError::UserNotExists(sender.clone()));
    }
    if user_state.is_regret {
        return Err(ContractError::UserAlreadyRegret(sender.clone()));
    }
    if !user_state.claimed_lock_amount.is_zero() || !user_state.claimed_unlock_amount.is_zero() {
        return Err(ContractError::UserAlreadyClaimed(sender.clone()));
    }
    if current_time >= config.start_lock_period_time || current_time >= config.end_regret_time {
        return Err(ContractError::RegretTimeIsOver {  });
    }
    user_state.is_regret = true;
    user_state.regret_time = current_time;

    let mut regret_info = read_regret_info(storage);
    let total_unlock_amount = match regret_info.total_unlock_amount.checked_add(
        user_state.total_user_unlock_amount,
    ) {
        Ok(v) => v,
        Err(e) => {
            return Err(ContractError::OverflowError(e));
        },
    };
    let total_lock_amount = match regret_info.total_lock_amount.checked_add(
        user_state.total_user_lock_amount,
    ) {
        Ok(v) => v,
        Err(e) => {
            return Err(ContractError::OverflowError(e));
        },
    };
    let per_lock_amount = match regret_info.per_lock_amount.checked_add(
        user_state.user_per_lock_amount,
    ) {
        Ok(v) => v,
        Err(e) => {
            return Err(ContractError::OverflowError(e));
        },
    };
    proof {
        lemma_from_nat(total_unlock_amount.value());
        lemma_from_nat(total_lock_amount.value());
        lemma_from_nat(per_lock_amount.value());
    }
    regret_info.total_unlock_amount = total_unlock_amount;
    regret_info.total_lock_amount = total_lock_amount;
    regret_info.per_lock_amount = per_lock_amount;

    store_user_state(storage, sender, &user_state);
    store_regret_info(storage, &regret_info);
    Ok(Response::new())
}

/// Settles what the sender may claim at `current_time` and emits the transfer
/// of it; of nothing, where nothing is due.
pub fn user_claim(storage: &mut Storage, current_time: u64, sender: &Addr) -> (r: Result<
    Response,
    ContractError,
>)
    requires
        old(storage).wf(),
    ensures
        match user_claim_failure(&old(storage)@, current_time, sender) {
            Some(e) => r == Err::<Response, ContractError>(e) && *final(storage) == *old(storage),
            None => {
                &&& r is Ok
                &&& r->Ok_0.messages@ == seq![
                    transfer_of(
                        &old(storage).global_config.claim_token,
                        sender,
                        user_claim_amount(&old(storage)@, current_time, sender),
                    ),
                ]
                &&& final(storage)@ == user_claim_next(&old(storage)@, current_time, sender)
                &&& final(storage).user_page == old(storage).user_page
            },
        },
        final(storage).wf(),
{
    let config = read_global_config(storage);
    let mut user_state = read_user_state(storage, sender);
    if user_state.is_regret {
        return Err(ContractError::UserAlreadyRegret(sender.clone()));
    }
    if config.start_time > current_time {
        return Err(ContractError::ClaimTimeIsNotArrived {  });
    }
    if is_empty_str(user_state.user.as_str()) {
        return Err(ContractError::UserNotExists(sender.clone()));
    }
    let mut global_state = read_global_state(storage);
    let ghost before = user_state;
    let ghost totals = global_state;

    let mut claimable_amount = Uint256::zero();
    if user_state.claimed_unlock_amount.is_zero() {
        claimable_amount = user_state.total_user_unlock_amount;
        user_state.claimed_unlock_amount = user_state.total_user_unlock_amount;
        global_state.total_user_claimed_unlock_amount =
        match global_state.total_user_claimed_unlock_amount.checked_add(
            user_state.total_user_unlock_amount,
        ) {
            Ok(v) => v,
            Err(e) => {
                return Err(ContractError::OverflowError(e));
            },
        };
    }
    let due = match lock_entitled(
        &config,
        user_state.user_per_lock_amount,
        user_state.last_claimed_period,
        current_time,
    ) {
        Ok(v) => v,
        Err(e) => {
            return Err(ContractError::OverflowError(e));
        },
    };
    claimable_amount = match claimable_amount.checked_add(due.lock_claimable) {
        Ok(v) => v,
        Err(e) => {
            return Err(ContractError::OverflowError(e));
        },
    };
    user_state.claimed_lock_amount = match user_state.claimed_lock_amount.checked_add(
        due.lock_claimable,
    ) {
        Ok(v) => v,
        Err(e) => {
            return Err(ContractError::OverflowError(e));
        },
    };
    user_state.last_claimed_period = due.settled_period;
    global_state.total_user_claimed_lock_amount =
    match global_state.total_user_claimed_lock_amount.checked_add(due.lock_claimable) {
        Ok(v) => v,
        Err(e) => {
            return Err(ContractError::OverflowError(e));
        },
    };
    if user_state.claimed_unlock_amount.gt(&user_state.total_user_unlock_amount) {
        return Err(ContractError::UserClaimUnlockAmountTooLarge(sender.clone()));
    }
    if user_state.claimed_lock_amount.gt(&user_state.total_user_lock_amount) {
        return Err(ContractError::UserClaimLockAmountTooLarge(sender.clone()));
    }
    let message = _transfer_token(&config.claim_token, sender, &claimable_amount)?;
    proof {
        lemma_from_nat(user_state.claimed_unlock_amount.value());
        lemma_from_nat(user_state.claimed_lock_amount.value());
        lemma_from_nat(global_state.total_user_claimed_unlock_amount.value());
        lemma_from_nat(global_state.total_user_claimed_lock_amount.value());
        assert(user_state == claimed_user(&config, &before, current_time));
        assert(global_state == claimed_global(
            &totals,
            user_unlock_claimable(&before),
            lock_claimable(
                &config,
                before.user_per_lock_amount,
                before.last_claimed_period,
                current_time,
            ),
        ));
    }
    store_user_state(storage, sender, &user_state);
    store_global_state(storage, &global_state);
    Ok(Response::with_message(message))
}

/// Settles what may be claimed from the pool at `current_time` and emits the
/// transfer of it to the pool's receiver. Only the receiver may ask.
pub fn regret_claim(storage: &mut Storage, current_time: u64, sender: &Addr) -> (r: Result<
    Response,
    ContractError,
>)
    requires
        old(storage).wf(),
    ensures
        match regret_claim_failure(&old(storage)@, current_time, sender) {
            Some(e) => r == Err::<Response, ContractError>(e) && *final(storage) == *old(storage),
            None => {
                &&& r is Ok
                &&& r->Ok_0.messages@ == seq![
                    transfer_of(
                        &old(storage).global_config.claim_token,
                        &old(storage).global_config.regret_token_receiver,
                        regret_claim_amount(&old(storage)@, current_time),
                    ),
                ]
                &&& final(storage)@ == regret_claim_next(&old(storage)@, current_time)
                &&& final(storage).user_page == old(storage).user_page
                &&& final(storage).user_states == old(storage).user_states
            },
        },
        final(storage).wf(),
{
    let global_config = read_global_config(storage);
    let mut global_state = read_global_state(storage);
    let mut regret_info = read_regret_info(storage);
    let ghost before = regret_info;
    let ghost totals = global_state;
    if is_empty_str(global_config.regret_token_receiver.as_str()) {
        return Err(ContractError::RegretTokenReceiverNotSet {  });
    }
    if *sender != global_config.regret_token_receiver {
        return Err(ContractError::Unauthorized {  });
    }
    if current_time < global_config.start_time {
        return Err(ContractError::ClaimTimeIsNotArrived {  });
    }
    let mut claimable_amount = Uint256::zero();
    if regret_info.total_unlock_amount.gt(&regret_info.total_claimed_unlock_amount) {
        claimable_amount = match regret_info.total_unlock_amount.checked_sub(
            regret_info.total_claimed_unlock_amount,
        ) {
            Ok(v) => v,
            Err(e) => {
                return Err(ContractError::OverflowError(e));
            },
        };
        regret_info.total_claimed_unlock_amount = regret_info.total_unlock_amount;
        global_state.total_user_claimed_unlock_amount =
        match global_state.total_user_claimed_unlock_amount.checked_add(claimable_amount) {
            Ok(v) => v,
            Err(e) => {
                return Err(ContractError::OverflowError(e));
            },
        };
    }
    let due = match lock_entitled(
        &global_config,
        regret_info.per_lock_amount,
        regret_info.last_claimed_period,
        current_time,
    ) {
        Ok(v) => v,
        Err(e) => {
            return Err(ContractError::OverflowError(e));
        },
    };
    claimable_amount = match claimable_amount.checked_add(due.lock_claimable) {
        Ok(v) => v,
        Err(e) => {
            return Err(ContractError::OverflowError(e));
        },
    };
    regret_info.total_claimed_lock_amount = match regret_info.total_claimed_lock_amount.checked_add(
        due.lock_claimable,
    ) {
        Ok(v) => v,
        Err(e) => {
            return Err(ContractError::OverflowError(e));
        },
    };
    regret_info.last_claimed_period = due.settled_period;
    global_state.total_user_claimed_lock_amount =
    match global_state.total_user_claimed_lock_amount.checked_add(due.lock_claimable) {
        Ok(v) => v,
        Err(e) => {
            return Err(ContractError::OverflowError(e));
        },
    };
    if regret_info.total_claimed_unlock_amount.gt(&regret_info.total_unlock_amount) {
        return Err(
            ContractError::UserClaimUnlockAmountTooLarge(global_config.regret_token_receiver.clone()),
        );
    }
    if regret_info.total_claimed_lock_amount.gt(&regret_info.total_lock_amount) {
        return Err(
            ContractError::UserClaimLockAmountTooLarge(global_config.regret_token_receiver.clone()),
        );
    }
    let message = _transfer_token(
        &global_config.claim_token,
        &global_config.regret_token_receiver,
        &claimable_amount,
    )?;
    proof {
        lemma_from_nat(regret_info.total_claimed_unlock_amount.value());
        lemma_from_nat(regret_info.total_claimed_lock_amount.value());
        lemma_from_nat(global_state.total_user_claimed_unlock_amount.value());
        lemma_from_nat(global_state.total_user_claimed_lock_amount.value());
        assert(regret_info == claimed_regret(&global_config, &before, current_time));
        assert(global_state == claimed_global(
            &totals,
            regret_unlock_claimable(&before),
            lock_claimable(
                &global_config,
                before.per_lock_amount,
                before.last_claimed_period,
                current_time,
            ),
        ));
    }
    store_regret_info(storage, &regret_info);
    store_global_state(storage, &global_state);
    Ok(Response::with_message(message))
}

/// The instruction that transfers `claimable_amount` of the token to
/// `recipient`; refused where the amount needs more than 128 bits.
pub fn _transfer_token(contract_addr: &Addr, recipient: &Addr, claimable_amount: &Uint256) -> (r:
    Result<TokenMsg, ContractError>)
    ensures
        claimable_amount.value() <= u128::MAX ==> r == Ok::<TokenMsg, ContractError>(
            transfer_of(contract_addr, recipient, claimable_amount.value()),
        ),
        claimable_amount.value() > u128::MAX ==> r == Err::<TokenMsg, ContractError>(
            ContractError::ConversionOverflow {  },
        ),
{
    match claimable_amount.to_u128() {
        Some(amount) => Ok(
            TokenMsg::Transfer {
                contract_addr: contract_addr.clone(),
                recipient: recipient.clone(),
                amount,
            },
        ),
        None => Err(ContractError::ConversionOverflow {  }),
    }
}

} // verus!
