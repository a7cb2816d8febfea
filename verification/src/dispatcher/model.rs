//! The dispatcher as a state machine: for each operation, on which states it
//! is refused and with what, and the state it leaves where it is not.
//!
//! The pool of forfeited entitlements is claimed like one entitlement: each
//! forfeiture adds the beneficiary's amounts and its instalment to the
//! pool's, and the pool's instalment is never worked out anew.

use vstd::prelude::*;
use crate::addr::Addr;
use crate::dispatcher::error::ContractError;
use crate::dispatcher::msg::{AddUserMsg, ExecuteMsg, UpdateGlobalConfigMsg};
use crate::dispatcher::state::{GlobalConfig, GlobalState, RegretInfo, StorageView, UserState};
use crate::dispatcher::vesting::{lock_claimable, regret_unlock_claimable, settled_period,
    user_unlock_claimable};
use crate::errors::{OverflowError, OverflowOperation};
use crate::math::{uint256_max, Uint256};
use crate::model_util::updated;

verus! {

/// The arithmetic step of a claim that does not fit, if one does not: adding
/// the unlocked amount to the total claimed, multiplying the instalment by the
/// periods, or adding the locked amount to what is claimed.
pub open spec fn claim_overflow(
    global: &GlobalState,
    claimed_lock: nat,
    unlock: nat,
    lock: nat,
) -> Option<OverflowOperation> {
    if global.total_user_claimed_unlock_amount.value() + unlock > uint256_max() {
        Some(OverflowOperation::Add)
    } else if lock > uint256_max() {
        Some(OverflowOperation::Mul)
    } else if unlock + lock > uint256_max() || claimed_lock + lock > uint256_max()
        || global.total_user_claimed_lock_amount.value() + lock > uint256_max() {
        Some(OverflowOperation::Add)
    } else {
        None
    }
}

/// The totals once `unlock` and `lock` are claimed.
pub open spec fn claimed_global(global: &GlobalState, unlock: nat, lock: nat) -> GlobalState {
    GlobalState {
        total_user_claimed_unlock_amount: Uint256::from_nat(
            global.total_user_claimed_unlock_amount.value() + unlock,
        ),
        total_user_claimed_lock_amount: Uint256::from_nat(
            global.total_user_claimed_lock_amount.value() + lock,
        ),
        ..*global
    }
}

/// A beneficiary's record once it has claimed at `now`.
pub open spec fn claimed_user(config: &GlobalConfig, state: &UserState, now: u64) -> UserState {
    UserState {
        claimed_unlock_amount: Uint256::from_nat(
            state.claimed_unlock_amount.value() + user_unlock_claimable(state),
        ),
        claimed_lock_amount: Uint256::from_nat(
            state.claimed_lock_amount.value() + lock_claimable(
                config,
                state.user_per_lock_amount,
                state.last_claimed_period,
                now,
            ),
        ),
        last_claimed_period: settled_period(config, state.last_claimed_period, now),
        ..*state
    }
}

/// The pool once what is due at `now` is claimed from it.
pub open spec fn claimed_regret(config: &GlobalConfig, info: &RegretInfo, now: u64) -> RegretInfo {
    RegretInfo {
        total_claimed_unlock_amount: Uint256::from_nat(
            info.total_claimed_unlock_amount.value() + regret_unlock_claimable(info),
        ),
        total_claimed_lock_amount: Uint256::from_nat(
            info.total_claimed_lock_amount.value() + lock_claimable(
                config,
                info.per_lock_amount,
                info.last_claimed_period,
                now,
            ),
        ),
        last_claimed_period: settled_period(config, info.last_claimed_period, now),
        ..*info
    }
}

/// The amount that a beneficiary's claim at `now` transfers.
pub open spec fn user_claim_amount(s: &StorageView, now: u64, sender: &Addr) -> nat {
    let state = s.user_states[sender.key()];
    user_unlock_claimable(&state) + lock_claimable(
        &s.global_config,
        state.user_per_lock_amount,
        state.last_claimed_period,
        now,
    )
}

/// Why a beneficiary's claim at `now` is refused, if it is: after a
/// forfeiture, whatever the time; before the start time; without a
/// registration; where a sum or product does not fit; where more would be
/// claimed than the entitlement; where the amount to transfer needs more
/// than 128 bits. The first that holds counts.
pub open spec fn user_claim_failure(s: &StorageView, now: u64, sender: &Addr) -> Option<
    ContractError,
> {
    let state = s.user_states[sender.key()];
    let unlock = user_unlock_claimable(&state);
    let lock = lock_claimable(
        &s.global_config,
        state.user_per_lock_amount,
        state.last_claimed_period,
        now,
    );
    if s.user_states.contains_key(sender.key()) && state.is_regret {
        Some(ContractError::UserAlreadyRegret(*sender))
    } else if s.global_config.start_time > now {
        Some(ContractError::ClaimTimeIsNotArrived {  })
    } else if !s.registered(sender) {
        Some(ContractError::UserNotExists(*sender))
    } else {
        match claim_overflow(&s.global_state, state.claimed_lock_amount.value(), unlock, lock) {
            Some(operation) => Some(ContractError::OverflowError(OverflowError { operation })),
            None => if state.claimed_unlock_amount.value() + unlock
                > state.total_user_unlock_amount.value() {
                Some(ContractError::UserClaimUnlockAmountTooLarge(*sender))
            } else if state.claimed_lock_amount.value() + lock
                > state.total_user_lock_amount.value() {
                Some(ContractError::UserClaimLockAmountTooLarge(*sender))
            } else if unlock + lock > u128::MAX {
                Some(ContractError::ConversionOverflow {  })
            } else {
                None
            },
        }
    }
}

/// The state that a beneficiary's claim at `now` leaves: the record and the
/// totals advanced by what was claimed.
pub open spec fn user_claim_next(s: &StorageView, now: u64, sender: &Addr) -> StorageView {
    let state = s.user_states[sender.key()];
    StorageView {
        user_states: s.user_states.insert(
            sender.key(),
            claimed_user(&s.global_config, &state, now),
        ),
        global_state: claimed_global(
            &s.global_state,
            user_unlock_claimable(&state),
            lock_claimable(
                &s.global_config,
                state.user_per_lock_amount,
                state.last_claimed_period,
                now,
            ),
        ),
        ..*s
    }
}

/// The amount that a claim from the pool at `now` transfers.
pub open spec fn regret_claim_amount(s: &StorageView, now: u64) -> nat {
    regret_unlock_claimable(&s.regret_info) + lock_claimable(
        &s.global_config,
        s.regret_info.per_lock_amount,
        s.regret_info.last_claimed_period,
        now,
    )
}

/// Why a claim from the pool by `sender` at `now` is refused, if it is:
/// without a receiver; by another account than the receiver; before the
/// start time; where a sum or product does not fit; where more would be
/// claimed than was forfeited; where the amount to transfer needs more than
/// 128 bits. The first that holds counts.
pub open spec fn regret_claim_failure(s: &StorageView, now: u64, sender: &Addr) -> Option<
    ContractError,
> {
    let info = s.regret_info;
    let unlock = regret_unlock_claimable(&info);
    let lock = lock_claimable(&s.global_config, info.per_lock_amount, info.last_claimed_period, now);
    if s.global_config.regret_token_receiver@.len() == 0 {
        Some(ContractError::RegretTokenReceiverNotSet {  })
    } else if sender@ != s.global_config.regret_token_receiver@ {
        Some(ContractError::Unauthorized {  })
    } else if now < s.global_config.start_time {
        Some(ContractError::ClaimTimeIsNotArrived {  })
    } else {
        match claim_overflow(&s.global_state, info.total_claimed_lock_amount.value(), unlock, lock) {
            Some(operation) => Some(ContractError::OverflowError(OverflowError { operation })),
            None => if info.total_claimed_unlock_amount.value() + unlock
                > info.total_unlock_amount.value() {
                Some(
                    ContractError::UserClaimUnlockAmountTooLarge(
                        s.global_config.regret_token_receiver,
                    ),
                )
            } else if info.total_claimed_lock_amount.value() + lock
                > info.total_lock_amount.value() {
                Some(
                    ContractError::UserClaimLockAmountTooLarge(
                        s.global_config.regret_token_receiver,
                    ),
                )
            } else if unlock + lock > u128::MAX {
                Some(ContractError::ConversionOverflow {  })
            } else {
                None
            },
        }
    }
}

/// The state that a claim from the pool at `now` leaves.
pub open spec fn regret_claim_next(s: &StorageView, now: u64) -> StorageView {
    StorageView {
        regret_info: claimed_regret(&s.global_config, &s.regret_info, now),
        global_state: claimed_global(
            &s.global_state,
            regret_unlock_claimable(&s.regret_info),
            lock_claimable(
                &s.global_config,
                s.regret_info.per_lock_amount,
                s.regret_info.last_claimed_period,
                now,
            ),
        ),
        ..*s
    }
}

/// Why a forfeiture at `now` is refused, if it is: before the start time;
/// without a registration; after an earlier forfeiture; after a claim; at or
/// after the start of the lock or the end of the window; where the pool's
/// totals do not fit. The first that holds counts.
pub open spec fn user_regret_failure(s: &StorageView, now: u64, sender: &Addr) -> Option<
    ContractError,
> {
    let state = s.user_states[sender.key()];
    let info = s.regret_info;
    if s.global_config.start_time > now {
        Some(ContractError::RegretTimeNotStart {  })
    } else if !s.registered(sender) {
        Some(ContractError::UserNotExists(*sender))
    } else if state.is_regret {
        Some(ContractError::UserAlreadyRegret(*sender))
    } else if state.claimed_lock_amount.value() != 0 || state.claimed_unlock_amount.value() != 0 {
        Some(ContractError::UserAlreadyClaimed(*sender))
    } else if now >= s.global_config.start_lock_period_time || now
        >= s.global_config.end_regret_time {
        Some(ContractError::RegretTimeIsOver {  })
    } else if info.total_unlock_amount.value() + state.total_user_unlock_amount.value()
        > uint256_max() || info.total_lock_amount.value() + state.total_user_lock_amount.value()
        > uint256_max() || info.per_lock_amount.value() + state.user_per_lock_amount.value()
        > uint256_max() {
        Some(ContractError::OverflowError(OverflowError { operation: OverflowOperation::Add }))
    } else {
        None
    }
}

/// The state that a forfeiture at `now` leaves: the record marked, and its
/// amounts and instalment added to the pool's.
pub open spec fn user_regret_next(s: &StorageView, now: u64, sender: &Addr) -> StorageView {
    let state = s.user_states[sender.key()];
    let info = s.regret_info;
    StorageView {
        user_states: s.user_states.insert(
            sender.key(),
            UserState { is_regret: true, regret_time: now, ..state },
        ),
        regret_info: RegretInfo {
            total_unlock_amount: Uint256::from_nat(
                info.total_unlock_amount.value() + state.total_user_unlock_amount.value(),
            ),
            total_lock_amount: Uint256::from_nat(
                info.total_lock_amount.value() + state.total_user_lock_amount.value(),
            ),
            per_lock_amount: Uint256::from_nat(
                info.per_lock_amount.value() + state.user_per_lock_amount.value(),
            ),
            ..info
        },
        ..*s
    }
}

/// The record that a registration creates: the amounts as given, the
/// instalment the locked amount divided by the number of periods, nothing
/// claimed.
pub open spec fn new_user_state(config: &GlobalConfig, msg: &AddUserMsg) -> UserState {
    UserState {
        user: msg.user,
        total_user_unlock_amount: msg.unlock_amount,
        total_user_lock_amount: msg.lock_amount,
        claimed_unlock_amount: Uint256 { hi: 0, lo: 0 },
        claimed_lock_amount: Uint256 { hi: 0, lo: 0 },
        last_claimed_period: 0,
        user_per_lock_amount: Uint256::from_nat(
            msg.lock_amount.value() / (config.periods as nat),
        ),
        is_regret: false,
        regret_time: 0,
    }
}

/// The registered unlocked total that a registration starts from: the total,
/// less the earlier record's amount where the registration replaces one.
pub open spec fn base_unlock(global: &GlobalState, existing: &UserState, msg: &AddUserMsg) -> int {
    if msg.replace {
        global.total_user_unlock_amount.value() - existing.total_user_unlock_amount.value()
    } else {
        global.total_user_unlock_amount.value() as int
    }
}

/// The registered locked total that a registration starts from.
pub open spec fn base_lock(global: &GlobalState, existing: &UserState, msg: &AddUserMsg) -> int {
    if msg.replace {
        global.total_user_lock_amount.value() - existing.total_user_lock_amount.value()
    } else {
        global.total_user_lock_amount.value() as int
    }
}

/// Why a registration is refused, if it is, given the totals, whether a
/// beneficiary is registered under the account, and the record that is: both
/// amounts zero; a registration under the account where none is to be
/// replaced; none where one is; a replaced record that has forfeited or
/// claimed; totals that do not fit or that pass a cap. The first that holds
/// counts.
pub open spec fn register_failure(
    config: &GlobalConfig,
    global: &GlobalState,
    registered: bool,
    existing: &UserState,
    msg: &AddUserMsg,
) -> Option<ContractError> {
    if msg.lock_amount.value() == 0 && msg.unlock_amount.value() == 0 {
        Some(ContractError::UserAmountIsZero(msg.user))
    } else if !msg.replace && registered {
        Some(ContractError::UserAlreadyExists(msg.user))
    } else if msg.replace && !registered {
        Some(ContractError::UserNotExists(msg.user))
    } else if msg.replace && existing.is_regret {
        Some(ContractError::UserAlreadyRegret(msg.user))
    } else if msg.replace && (existing.claimed_lock_amount.value() != 0
        || existing.claimed_unlock_amount.value() != 0) {
        Some(ContractError::UserAlreadyClaimed(msg.user))
    } else if base_lock(global, existing, msg) < 0 || base_unlock(global, existing, msg) < 0 {
        Some(ContractError::OverflowError(OverflowError { operation: OverflowOperation::Sub }))
    } else if base_unlock(global, existing, msg) + msg.unlock_amount.value() > uint256_max() {
        Some(ContractError::OverflowError(OverflowError { operation: OverflowOperation::Add }))
    } else if base_unlock(global, existing, msg) + msg.unlock_amount.value()
        > config.total_unlock_amount.value() {
        Some(ContractError::UserUnlockAmountTooLarge(msg.user))
    } else if base_lock(global, existing, msg) + msg.lock_amount.value() > uint256_max() {
        Some(ContractError::OverflowError(OverflowError { operation: OverflowOperation::Add }))
    } else if base_lock(global, existing, msg) + msg.lock_amount.value()
        > config.total_lock_amount.value() {
        Some(ContractError::UserLockAmountTooLarge(msg.user))
    } else {
        None
    }
}

/// The totals that a registration leaves: the registered totals moved by the
/// difference between the new amounts and those replaced.
pub open spec fn registered_totals(
    global: &GlobalState,
    existing: &UserState,
    msg: &AddUserMsg,
) -> GlobalState {
    GlobalState {
        total_user_unlock_amount: Uint256::from_nat(
            (base_unlock(global, existing, msg) + msg.unlock_amount.value()) as nat,
        ),
        total_user_lock_amount: Uint256::from_nat(
            (base_lock(global, existing, msg) + msg.lock_amount.value()) as nat,
        ),
        ..*global
    }
}

/// Why a registration is refused in a state, if it is.
pub open spec fn add_user_failure(s: &StorageView, msg: &AddUserMsg) -> Option<ContractError> {
    register_failure(
        &s.global_config,
        &s.global_state,
        s.registered(&msg.user),
        &s.user_states[msg.user.key()],
        msg,
    )
}

/// The state that a registration leaves: the new record in place, the
/// registered totals moved by the difference, and, unless it replaces a
/// record, the account entered in the index.
pub open spec fn add_user_next(s: &StorageView, msg: &AddUserMsg) -> StorageView {
    StorageView {
        user_states: s.user_states.insert(msg.user.key(), new_user_state(&s.global_config, msg)),
        user_page: if msg.replace {
            s.user_page
        } else {
            s.user_page.insert(msg.user.key(), msg.user)
        },
        global_state: registered_totals(&s.global_state, &s.user_states[msg.user.key()], msg),
        ..*s
    }
}

/// The records once each registration of a run has put its record in place.
pub open spec fn registered_into(
    users: Map<Seq<u8>, UserState>,
    config: &GlobalConfig,
    msgs: Seq<AddUserMsg>,
) -> Map<Seq<u8>, UserState>
    decreases msgs.len(),
{
    if msgs.len() == 0 {
        users
    } else {
        registered_into(users, config, msgs.drop_last()).insert(
            msgs.last().user.key(),
            new_user_state(config, &msgs.last()),
        )
    }
}

/// The index once each registration of a run that replaces nothing has
/// entered its account.
pub open spec fn paged_into(page: Map<Seq<u8>, Addr>, msgs: Seq<AddUserMsg>) -> Map<Seq<u8>, Addr>
    decreases msgs.len(),
{
    if msgs.len() == 0 {
        page
    } else if msgs.last().replace {
        paged_into(page, msgs.drop_last())
    } else {
        paged_into(page, msgs.drop_last()).insert(msgs.last().user.key(), msgs.last().user)
    }
}

/// Why a run of registrations, taken in order, is refused: the reason of the
/// first that is refused in the state that those before it leave.
pub open spec fn add_users_failure(s: &StorageView, msgs: Seq<AddUserMsg>) -> Option<ContractError>
    decreases msgs.len(),
{
    if msgs.len() == 0 {
        None
    } else {
        match add_user_failure(s, &msgs[0]) {
            Some(e) => Some(e),
            None => add_users_failure(&add_user_next(s, &msgs[0]), msgs.drop_first()),
        }
    }
}

/// The state that a run of registrations leaves, each taken in the state
/// that those before it leave.
pub open spec fn add_users_next(s: &StorageView, msgs: Seq<AddUserMsg>) -> StorageView
    decreases msgs.len(),
{
    if msgs.len() == 0 {
        *s
    } else {
        add_users_next(&add_user_next(s, &msgs[0]), msgs.drop_first())
    }
}

/// Why a run of registrations asked for by `sender` is refused, if it is:
/// the sender is not the governor, or one of them is refused.
pub open spec fn add_users_outcome(s: &StorageView, sender: &Addr, msgs: Seq<AddUserMsg>) -> Option<
    ContractError,
> {
    if s.global_config.gov@ != sender@ {
        Some(ContractError::Unauthorized {  })
    } else {
        add_users_failure(s, msgs)
    }
}

/// Why an update of the configuration is refused, if it is: the sender is not
/// the governor, or a new cap lies below what is registered.
pub open spec fn update_config_failure(
    s: &StorageView,
    sender: &Addr,
    msg: &UpdateGlobalConfigMsg,
) -> Option<ContractError> {
    if s.global_config.gov@ != sender@ {
        Some(ContractError::Unauthorized {  })
    } else if msg.total_lock_amount is Some && msg.total_lock_amount->Some_0.value()
        < s.global_state.total_user_lock_amount.value() {
        Some(ContractError::InvalidTotalLockAmount {  })
    } else if msg.total_unlock_amount is Some && msg.total_unlock_amount->Some_0.value()
        < s.global_state.total_user_unlock_amount.value() {
        Some(ContractError::InvalidTotalUnlockAmount {  })
    } else {
        None
    }
}

/// The configuration that an update leaves.
pub open spec fn updated_config(config: &GlobalConfig, msg: &UpdateGlobalConfigMsg) -> GlobalConfig {
    GlobalConfig {
        gov: updated(msg.gov, config.gov),
        claim_token: updated(msg.claim_token, config.claim_token),
        start_time: updated(msg.start_time, config.start_time),
        end_regret_time: updated(msg.end_regret_time, config.end_regret_time),
        regret_token_receiver: updated(msg.regret_token_receiver, config.regret_token_receiver),
        total_lock_amount: updated(msg.total_lock_amount, config.total_lock_amount),
        total_unlock_amount: updated(msg.total_unlock_amount, config.total_unlock_amount),
        ..*config
    }
}

/// Why an operation asked for by `sender` at `now` is refused, if it is.
pub open spec fn execute_failure(s: &StorageView, now: u64, sender: &Addr, msg: &ExecuteMsg) -> Option<
    ContractError,
> {
    match msg {
        ExecuteMsg::UpdateConfig(m) => update_config_failure(s, sender, m),
        ExecuteMsg::AddUser(msgs) => add_users_outcome(s, sender, msgs@),
        ExecuteMsg::UserRegret {  } => user_regret_failure(s, now, sender),
        ExecuteMsg::UserClaim {  } => user_claim_failure(s, now, sender),
        ExecuteMsg::RegretClaim {  } => regret_claim_failure(s, now, sender),
    }
}

/// The state that an operation leaves where it is not refused.
pub open spec fn execute_next(s: &StorageView, now: u64, sender: &Addr, msg: &ExecuteMsg) -> StorageView {
    match msg {
        ExecuteMsg::UpdateConfig(m) => StorageView {
            global_config: updated_config(&s.global_config, m),
            ..*s
        },
        ExecuteMsg::AddUser(msgs) => add_users_next(s, msgs@),
        ExecuteMsg::UserRegret {  } => user_regret_next(s, now, sender),
        ExecuteMsg::UserClaim {  } => user_claim_next(s, now, sender),
        ExecuteMsg::RegretClaim {  } => regret_claim_next(s, now),
    }
}

/// The state after an operation: the one it leaves, or the one before where
/// it is refused.
pub open spec fn execute_step(s: &StorageView, now: u64, sender: &Addr, msg: &ExecuteMsg) -> StorageView {
    if execute_failure(s, now, sender, msg) is Some {
        *s
    } else {
        execute_next(s, now, sender, msg)
    }
}

} // verus!
