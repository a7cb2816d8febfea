//! The operations that change what the treasure keeps. Each one checks
//! everything first and writes only when nothing is left to refuse.

use vstd::prelude::*;
use crate::addr::Addr;
use crate::errors::{OverflowError, OverflowOperation, StdError};
use crate::model_util::updated;
use crate::response::{Response, TokenMsg};
use crate::treasure::error::ContractError;
use crate::treasure::helper::BASE_RATE_6;
use crate::treasure::msg::{Cw20HookMsg, Cw20ReceiveMsg, TreasureConfigMsg};
use crate::treasure::random_rules::{decimal, get_winning, push_decimal, winning_spec, Env};
use crate::treasure::state::{read_treasure_state, read_treasure_user_state, record_key,
    store_treasure_state, store_treasure_user_state, store_user_lock_record,
    store_user_mint_nft_record, store_user_withdraw_record, Storage, TreasureConfig,
    TreasureState, TreasureUserState, UserLockRecord, UserMintNftRecord, UserWithdrawRecord};

verus! {

/// The overflow in the given operation, as the treasure reports it.
pub open spec fn overflowed(operation: OverflowOperation) -> ContractError {
    ContractError::OverflowError(OverflowError { operation })
}

/// The refusal for want of a number for another record.
pub open spec fn no_record_left() -> ContractError {
    ContractError::Std(
        StdError::Overflow { source: OverflowError { operation: OverflowOperation::Add } },
    )
}

/// The configuration that an update leaves.
pub open spec fn updated_config(config: &TreasureConfig, msg: &TreasureConfigMsg) -> TreasureConfig {
    TreasureConfig {
        gov: updated(msg.gov, config.gov),
        lock_token: updated(msg.lock_token, config.lock_token),
        start_time: updated(msg.start_time, config.start_time),
        end_time: updated(msg.end_time, config.end_time),
        integral_reward_coefficient: updated(
            msg.integral_reward_coefficient,
            config.integral_reward_coefficient,
        ),
        lock_duration: updated(msg.lock_duration, config.lock_duration),
        punish_coefficient: updated(msg.punish_coefficient, config.punish_coefficient),
        mint_nft_cost_integral: updated(msg.mint_nft_cost_integral, config.mint_nft_cost_integral),
        winning_num: updated(msg.winning_num, config.winning_num),
        mod_num: updated(msg.mod_num, config.mod_num),
        punish_receiver: updated(msg.punish_receiver, config.punish_receiver),
    }
}

/// What an update of the configuration leaves and hands back: refused to
/// all but the governor, and else the named fields replaced.
pub open spec fn update_config_ensures(
    pre: &Storage,
    post: &Storage,
    r: &Result<Response, ContractError>,
    sender: &Addr,
    config_msg: &TreasureConfigMsg,
) -> bool {
    if pre.treasure_config.gov@ != sender@ {
        *r == Err::<Response, ContractError>(ContractError::Unauthorized {  }) && *post == *pre
    } else {
        &&& *r is Ok
        &&& r->Ok_0.messages@.len() == 0
        &&& *post == (Storage {
            treasure_config: updated_config(&pre.treasure_config, config_msg),
            ..*pre
        })
    }
}

/// Replaces the fields of the configuration that the message names. Only the
/// governor may.
pub fn update_config(storage: &mut Storage, sender: &Addr, config_msg: TreasureConfigMsg) -> (r:
    Result<Response, ContractError>)
    ensures
        update_config_ensures(old(storage), final(storage), &r, sender, &config_msg),
{
    if storage.treasure_config.gov != *sender {
        return Err(ContractError::Unauthorized {  });
    }
    if let Some(gov) = config_msg.gov {
        storage.treasure_config.gov = gov;
    }
    if let Some(lock_token) = config_msg.lock_token {
        storage.treasure_config.lock_token = lock_token;
    }
    if let Some(start_time) = config_msg.start_time {
        storage.treasure_config.start_time = start_time;
    }
    if let Some(end_time) = config_msg.end_time {
        storage.treasure_config.end_time = end_time;
    }
    if let Some(integral_reward_coefficient) = config_msg.integral_reward_coefficient {
        storage.treasure_config.integral_reward_coefficient = integral_reward_coefficient;
    }
    if let Some(lock_duration) = config_msg.lock_duration {
        storage.treasure_config.lock_duration = lock_duration;
    }
    if let Some(punish_coefficient) = config_msg.punish_coefficient {
        storage.treasure_config.punish_coefficient = punish_coefficient;
    }
    if let Some(mint_nft_cost_integral) = config_msg.mint_nft_cost_integral {
        storage.treasure_config.mint_nft_cost_integral = mint_nft_cost_integral;
    }
    if let Some(winning_num) = config_msg.winning_num {
        storage.treasure_config.winning_num = winning_num;
    }
    if let Some(mod_num) = config_msg.mod_num {
        storage.treasure_config.mod_num = mod_num;
    }
    if let Some(punish_receiver) = config_msg.punish_receiver {
        storage.treasure_config.punish_receiver = punish_receiver;
    }
    Ok(Response::new())
}

/// Why a lock of `lock_amount` at `now` is refused, if it is: before the
/// start; after the end; where the points, the end of the lock or a total do
/// not fit; where no number is left for the record. The first that holds
/// counts.
pub open spec fn lock_failure(s: &Storage, now: u64, user: &Addr, lock_amount: u128) -> Option<
    ContractError,
> {
    let config = &s.treasure_config;
    let u = s.user_state_of(user);
    let g = s.treasure_state;
    let reward = lock_amount * config.integral_reward_coefficient;
    if now < config.start_time {
        Some(ContractError::TreasureNotStart {  })
    } else if now > config.end_time {
        Some(ContractError::TreasureEnd {  })
    } else if reward > u128::MAX {
        Some(overflowed(OverflowOperation::Mul))
    } else if now + config.lock_duration > u64::MAX {
        Some(overflowed(OverflowOperation::Add))
    } else if u.current_locked_amount + lock_amount > u128::MAX || u.current_integral_amount
        + reward > u128::MAX || u.total_locked_amount + lock_amount > u128::MAX {
        Some(overflowed(OverflowOperation::Add))
    } else if s.record_index == u64::MAX {
        Some(no_record_left())
    } else if g.total_locked_amount + lock_amount > u128::MAX || g.current_locked_amount
        + lock_amount > u128::MAX || g.current_integral_amount + reward > u128::MAX {
        Some(overflowed(OverflowOperation::Add))
    } else {
        None
    }
}

/// A user's state once it has locked `lock_amount` at `now`.
pub open spec fn locked_user(
    config: &TreasureConfig,
    u: &TreasureUserState,
    now: u64,
    lock_amount: u128,
) -> TreasureUserState {
    TreasureUserState {
        start_lock_time: if u.start_lock_time == 0 {
            now
        } else {
            u.start_lock_time
        },
        end_lock_time: (now + config.lock_duration) as u64,
        current_locked_amount: (u.current_locked_amount + lock_amount) as u128,
        current_integral_amount: (u.current_integral_amount + lock_amount
            * config.integral_reward_coefficient) as u128,
        total_locked_amount: (u.total_locked_amount + lock_amount) as u128,
        ..*u
    }
}

/// The record of a lock of `lock_amount` at `now`.
pub open spec fn lock_record(s: &Storage, now: u64, user: &Addr, lock_amount: u128) -> UserLockRecord {
    UserLockRecord {
        record_id: (s.record_index + 1) as u64,
        user_addr: *user,
        lock_amount,
        integral_reward_coefficient: s.treasure_config.integral_reward_coefficient,
        lock_duration: s.treasure_config.lock_duration,
        start_lock_time: now,
        end_lock_time: (now + s.treasure_config.lock_duration) as u64,
    }
}

/// What a lock leaves and hands back: its refusal, with nothing changed, or
/// the user's state, the totals and the record as the lock makes them.
pub open spec fn lock_ensures(
    pre: &Storage,
    post: &Storage,
    r: &Result<Response, ContractError>,
    now: u64,
    user_addr: &Addr,
    lock_amount: u128,
) -> bool {
    match lock_failure(pre, now, user_addr, lock_amount) {
        Some(e) => *r == Err::<Response, ContractError>(e) && *post == *pre,
        None => {
            let g = pre.treasure_state;
            let reward = lock_amount * pre.treasure_config.integral_reward_coefficient;
            &&& *r is Ok
            &&& r->Ok_0.messages@.len() == 0
            &&& post.user_state_of(user_addr) == locked_user(
                &pre.treasure_config,
                &pre.user_state_of(user_addr),
                now,
                lock_amount,
            )
            &&& post.treasure_user_state.map() == pre.treasure_user_state.map().insert(
                user_addr.key(),
                post.user_state_of(user_addr),
            )
            &&& post.treasure_state == (TreasureState {
                total_locked_amount: (g.total_locked_amount + lock_amount) as u128,
                current_locked_amount: (g.current_locked_amount + lock_amount) as u128,
                current_integral_amount: (g.current_integral_amount + reward) as u128,
                ..g
            })
            &&& post.record_index == pre.record_index + 1
            &&& post.lock_records_of(user_addr) == pre.lock_records_of(
                user_addr,
            ).insert(
                record_key((pre.record_index + 1) as u64),
                lock_record(pre, now, user_addr, lock_amount),
            )
            &&& forall|other: Addr|
                other.key() != user_addr.key() ==> #[trigger] post.lock_records_of(&other)
                    == pre.lock_records_of(&other)
            &&& post.treasure_config == pre.treasure_config
            &&& post.withdraw_records == pre.withdraw_records
            &&& post.mint_nft_records == pre.mint_nft_records
        },
    }
}

/// Takes in `lock_amount` tokens that `user_addr` has sent at `now`: the
/// user earns points for them, and the lock of all its tokens ends anew a
/// lock duration from now.
pub fn user_lock_hook(storage: &mut Storage, now: u64, user_addr: &Addr, lock_amount: u128) -> (r:
    Result<Response, ContractError>)
    ensures
        lock_ensures(old(storage), final(storage), &r, now, user_addr, lock_amount),
{
    if now < storage.treasure_config.start_time {
        return Err(ContractError::TreasureNotStart {  });
    }
    if now > storage.treasure_config.end_time {
        return Err(ContractError::TreasureEnd {  });
    }
    let coefficient: u128 = storage.treasure_config.integral_reward_coefficient;
    let lock_duration: u64 = storage.treasure_config.lock_duration;
    let reward_integral_amount: u128 = match lock_amount.checked_mul(coefficient) {
        Some(v) => v,
        None => {
            return Err(mul_overflow());
        },
    };
    let user_end_time: u64 = match now.checked_add(lock_duration) {
        Some(v) => v,
        None => {
            return Err(add_overflow());
        },
    };
    let mut user_state = read_treasure_user_state(storage, user_addr);
    if user_state.start_lock_time == 0 {
        user_state.start_lock_time = now;
    }
    user_state.end_lock_time = user_end_time;
    user_state.current_locked_amount = checked_add(user_state.current_locked_amount, lock_amount)?;
    user_state.current_integral_amount = checked_add(
        user_state.current_integral_amount,
        reward_integral_amount,
    )?;
    user_state.total_locked_amount = checked_add(user_state.total_locked_amount, lock_amount)?;
    let record_id: u64 = match storage.record_index.checked_add(1) {
        Some(v) => v,
        None => {
            return Err(
                ContractError::Std(
                    StdError::overflow(OverflowError { operation: OverflowOperation::Add }),
                ),
            );
        },
    };
    let record = UserLockRecord {
        record_id,
        user_addr: user_addr.clone(),
        lock_amount,
        integral_reward_coefficient: coefficient,
        lock_duration,
        start_lock_time: now,
        end_lock_time: user_end_time,
    };
    let mut global_state = read_treasure_state(storage);
    global_state.total_locked_amount = checked_add(global_state.total_locked_amount, lock_amount)?;
    global_state.current_locked_amount = checked_add(
        global_state.current_locked_amount,
        lock_amount,
    )?;
    global_state.current_integral_amount = checked_add(
        global_state.current_integral_amount,
        reward_integral_amount,
    )?;
    storage.record_index = record_id;
    let ghost before_record = *storage;
    store_user_lock_record(storage, &record);
    let ghost after_record = *storage;
    store_treasure_user_state(storage, user_addr, &user_state);
    store_treasure_state(storage, &global_state);
    proof {
        assert forall|other: Addr| other.key() != user_addr.key() implies #[trigger] storage.lock_records_of(
            &other,
        ) == old(storage).lock_records_of(&other) by {
            assert(after_record.lock_records_of(&other) == before_record.lock_records_of(&other));
        }
    }
    Ok(Response::new())
}

/// The sum of two amounts, or the overflow.
pub fn checked_add(a: u128, b: u128) -> (r: Result<u128, ContractError>)
    ensures
        a + b <= u128::MAX ==> r == Ok::<u128, ContractError>((a + b) as u128),
        a + b > u128::MAX ==> r == Err::<u128, ContractError>(overflowed(OverflowOperation::Add)),
{
    match a.checked_add(b) {
        Some(v) => Ok(v),
        None => Err(add_overflow()),
    }
}

/// The difference of two amounts, or the overflow where the second is the
/// larger.
pub fn checked_sub(a: u128, b: u128) -> (r: Result<u128, ContractError>)
    ensures
        b <= a ==> r == Ok::<u128, ContractError>((a - b) as u128),
        b > a ==> r == Err::<u128, ContractError>(overflowed(OverflowOperation::Sub)),
{
    match a.checked_sub(b) {
        Some(v) => Ok(v),
        None => Err(ContractError::OverflowError(OverflowError { operation: OverflowOperation::Sub })),
    }
}

/// The overflow of a sum.
pub fn add_overflow() -> (r: ContractError)
    ensures
        r == overflowed(OverflowOperation::Add),
{
    ContractError::OverflowError(OverflowError { operation: OverflowOperation::Add })
}

/// The overflow of a product.
pub fn mul_overflow() -> (r: ContractError)
    ensures
        r == overflowed(OverflowOperation::Mul),
{
    ContractError::OverflowError(OverflowError { operation: OverflowOperation::Mul })
}

/// What the taking in of tokens leaves and hands back: refused where what
/// the sender wants could not be read, and where the tokens come from
/// another ledger than that of the token to lock; and else what the lock
/// leaves and hands back.
pub open spec fn receive_ensures(
    pre: &Storage,
    post: &Storage,
    r: &Result<Response, ContractError>,
    now: u64,
    token: &Addr,
    cw20_msg: &Cw20ReceiveMsg,
) -> bool {
    if cw20_msg.msg is None {
        *r == Err::<Response, ContractError>(ContractError::InvalidCw20HookMsg {  }) && *post == *pre
    } else if token@ != pre.treasure_config.lock_token@ {
        *r == Err::<Response, ContractError>(ContractError::InvalidLockToken {  }) && *post == *pre
    } else {
        lock_ensures(pre, post, r, now, &cw20_msg.sender, cw20_msg.amount)
    }
}

/// What is done with tokens that arrive from a token ledger: they are locked
/// for their sender where the sender asks for it and the ledger is the one
/// of the token to lock.
pub fn receive_cw20(storage: &mut Storage, now: u64, token: &Addr, cw20_msg: Cw20ReceiveMsg) -> (r:
    Result<Response, ContractError>)
    ensures
        receive_ensures(old(storage), final(storage), &r, now, token, &cw20_msg),
{
    match cw20_msg.msg {
        Some(Cw20HookMsg::UserLockHook {  }) => {
            if *token != storage.treasure_config.lock_token {
                return Err(ContractError::InvalidLockToken {  });
            }
            user_lock_hook(storage, now, &cw20_msg.sender, cw20_msg.amount)
        },
        None => Err(ContractError::InvalidCw20HookMsg {  }),
    }
}

/// The penalty on a withdrawal of `amount` at `now`: the coefficient's parts
/// of a million of it, rounded down, before the lock ends, and nothing from
/// then on.
pub open spec fn punish_of(config: &TreasureConfig, u: &TreasureUserState, now: u64, amount: u128) -> int {
    if now < u.end_lock_time {
        (amount * config.punish_coefficient) / (BASE_RATE_6 as int)
    } else {
        0
    }
}

/// Why a withdrawal of `amount` at `now` is refused, if it is: more than is
/// locked; a penalty that does not fit or is more than the amount; totals
/// that do not fit; no number left for the record. The first that holds
/// counts.
pub open spec fn withdraw_failure(s: &Storage, now: u64, sender: &Addr, amount: u128) -> Option<
    ContractError,
> {
    let config = &s.treasure_config;
    let u = s.user_state_of(sender);
    let g = s.treasure_state;
    let punish = punish_of(config, &u, now, amount);
    if amount > u.current_locked_amount {
        Some(ContractError::InsufficientLockFunds {  })
    } else if now < u.end_lock_time && amount * config.punish_coefficient > u128::MAX {
        Some(overflowed(OverflowOperation::Mul))
    } else if punish > amount {
        Some(overflowed(OverflowOperation::Sub))
    } else if u.total_punish_amount + punish > u128::MAX || g.total_punish_amount + punish
        > u128::MAX {
        Some(overflowed(OverflowOperation::Add))
    } else if s.record_index == u64::MAX {
        Some(no_record_left())
    } else if g.current_locked_amount < amount {
        Some(overflowed(OverflowOperation::Sub))
    } else {
        None
    }
}

/// The transfers that a withdrawal emits: before the lock ends the penalty
/// to its receiver, and always the rest to the user.
pub open spec fn withdraw_messages(s: &Storage, now: u64, sender: &Addr, amount: u128) -> Seq<
    TokenMsg,
> {
    let config = &s.treasure_config;
    let u = s.user_state_of(sender);
    let punish = punish_of(config, &u, now, amount);
    let to_user = TokenMsg::Transfer {
        contract_addr: config.lock_token,
        recipient: *sender,
        amount: (amount - punish) as u128,
    };
    if now < u.end_lock_time {
        seq![
            TokenMsg::Transfer {
                contract_addr: config.lock_token,
                recipient: config.punish_receiver,
                amount: punish as u128,
            },
            to_user,
        ]
    } else {
        seq![to_user]
    }
}

/// What a withdrawal leaves and hands back: its refusal, with nothing
/// changed, or the transfers, the user's state, the totals and the record as
/// the withdrawal makes them.
pub open spec fn withdraw_ensures(
    pre: &Storage,
    post: &Storage,
    r: &Result<Response, ContractError>,
    now: u64,
    sender: &Addr,
    amount: u128,
) -> bool {
    match withdraw_failure(pre, now, sender, amount) {
        Some(e) => *r == Err::<Response, ContractError>(e) && *post == *pre,
        None => {
            let u = pre.user_state_of(sender);
            let g = pre.treasure_state;
            let punish = punish_of(&pre.treasure_config, &u, now, amount);
            &&& *r is Ok
            &&& r->Ok_0.messages@ == withdraw_messages(pre, now, sender, amount)
            &&& post.user_state_of(sender) == (TreasureUserState {
                current_locked_amount: (u.current_locked_amount - amount) as u128,
                total_punish_amount: (u.total_punish_amount + punish) as u128,
                ..u
            })
            &&& post.treasure_user_state.map() == pre.treasure_user_state.map().insert(sender.key(), post.user_state_of(sender))
            &&& post.treasure_state == (TreasureState {
                current_locked_amount: (g.current_locked_amount - amount) as u128,
                total_punish_amount: (g.total_punish_amount + punish) as u128,
                ..g
            })
            &&& post.record_index == pre.record_index + 1
            &&& post.withdraw_records_of(sender) == pre.withdraw_records_of(
                sender,
            ).insert(
                record_key((pre.record_index + 1) as u64),
                UserWithdrawRecord {
                    record_id: (pre.record_index + 1) as u64,
                    user_addr: *sender,
                    withdraw_amount: (amount - punish) as u128,
                    punish_amount: punish as u128,
                    withdraw_time: now,
                },
            )
            &&& forall|other: Addr|
                other.key() != sender.key() ==> #[trigger] post.withdraw_records_of(&other)
                    == pre.withdraw_records_of(&other)
            &&& post.treasure_config == pre.treasure_config
            &&& post.lock_records == pre.lock_records
            &&& post.mint_nft_records == pre.mint_nft_records
        },
    }
}

/// Gives `amount` of the sender's locked tokens back, less the penalty where
/// the lock has not ended.
pub fn user_withdraw(storage: &mut Storage, now: u64, sender: &Addr, amount: u128) -> (r: Result<
    Response,
    ContractError,
>)
    ensures
        withdraw_ensures(old(storage), final(storage), &r, now, sender, amount),
{
    let mut user_state = read_treasure_user_state(storage, sender);
    if amount > user_state.current_locked_amount {
        return Err(ContractError::InsufficientLockFunds {  });
    }
    let mut global_state = read_treasure_state(storage);
    let mut withdraw_amount: u128 = amount;
    let mut punish_amount: u128 = 0;
    let mut transfer_msgs: Vec<TokenMsg> = Vec::new();
    if now < user_state.end_lock_time {
        let scaled: u128 = match amount.checked_mul(storage.treasure_config.punish_coefficient) {
            Some(v) => v,
            None => {
                return Err(mul_overflow());
            },
        };
        punish_amount = scaled / BASE_RATE_6;
        withdraw_amount = checked_sub(withdraw_amount, punish_amount)?;
        user_state.total_punish_amount = checked_add(user_state.total_punish_amount, punish_amount)?;
        global_state.total_punish_amount = checked_add(
            global_state.total_punish_amount,
            punish_amount,
        )?;
        transfer_msgs.push(
            TokenMsg::Transfer {
                contract_addr: storage.treasure_config.lock_token.clone(),
                recipient: storage.treasure_config.punish_receiver.clone(),
                amount: punish_amount,
            },
        );
    }
    let record_id: u64 = match storage.record_index.checked_add(1) {
        Some(v) => v,
        None => {
            return Err(
                ContractError::Std(
                    StdError::overflow(OverflowError { operation: OverflowOperation::Add }),
                ),
            );
        },
    };
    let record = UserWithdrawRecord {
        record_id,
        user_addr: sender.clone(),
        withdraw_amount,
        punish_amount,
        withdraw_time: now,
    };
    user_state.current_locked_amount = user_state.current_locked_amount - amount;
    global_state.current_locked_amount = checked_sub(global_state.current_locked_amount, amount)?;
    transfer_msgs.push(
        TokenMsg::Transfer {
            contract_addr: storage.treasure_config.lock_token.clone(),
            recipient: sender.clone(),
            amount: withdraw_amount,
        },
    );
    proof {
        assert(transfer_msgs@ =~= withdraw_messages(old(storage), now, sender, amount));
    }
    storage.record_index = record_id;
    let ghost before_record = *storage;
    store_user_withdraw_record(storage, &record);
    let ghost after_record = *storage;
    store_treasure_user_state(storage, sender, &user_state);
    store_treasure_state(storage, &global_state);
    proof {
        assert forall|other: Addr| other.key() != sender.key() implies #[trigger] storage.withdraw_records_of(
            &other,
        ) == old(storage).withdraw_records_of(&other) by {
            assert(after_record.withdraw_records_of(&other) == before_record.withdraw_records_of(&other));
        }
    }
    Ok(Response { messages: transfer_msgs })
}

/// What `n` draws come to, one for each record number from `first_id` on:
/// how many of them win, or the refusal of the first that is refused.
pub open spec fn draws(env: &Env, config: &TreasureConfig, first_id: u64, n: nat) -> Result<
    nat,
    ContractError,
>
    decreases n,
{
    if n == 0 {
        Ok(0)
    } else {
        match draws(env, config, first_id, (n - 1) as nat) {
            Err(e) => Err(e),
            Ok(wins) => if first_id + (n - 1) > u64::MAX {
                Err(overflowed(OverflowOperation::Add))
            } else {
                match winning_spec(
                    env,
                    decimal((first_id + (n - 1)) as nat),
                    Seq::empty(),
                    config.winning_num@,
                    config.mod_num,
                ) {
                    Err(e) => Err(e),
                    Ok(won) => Ok(
                        if won {
                            wins + 1
                        } else {
                            wins
                        },
                    ),
                }
            },
        }
    }
}

/// Why `mint_num` draws are refused, if they are: none asked for; a cost
/// that does not fit or is more than the user's points; no numbers left for
/// the records; a draw that is refused; counts and totals that do not fit.
/// The first that holds counts.
pub open spec fn mint_failure(s: &Storage, env: &Env, sender: &Addr, mint_num: u64) -> Option<
    ContractError,
> {
    let config = &s.treasure_config;
    let u = s.user_state_of(sender);
    let g = s.treasure_state;
    let cost = config.mint_nft_cost_integral * mint_num;
    let outcome = draws(env, config, (s.record_index + 1) as u64, mint_num as nat);
    if mint_num < 1 {
        Some(ContractError::InvalidMintNum {  })
    } else if cost > u128::MAX {
        Some(overflowed(OverflowOperation::Mul))
    } else if cost > u.current_integral_amount {
        Some(ContractError::InsufficientIntegralFunds {  })
    } else if s.record_index == u64::MAX {
        Some(no_record_left())
    } else if outcome is Err {
        Some(outcome->Err_0)
    } else if s.record_index + 1 == u64::MAX {
        Some(no_record_left())
    } else if u.total_cost_integral_amount + cost > u128::MAX || u.win_nft_num + outcome->Ok_0
        > u64::MAX || u.lose_nft_num + (mint_num - outcome->Ok_0) > u64::MAX {
        Some(overflowed(OverflowOperation::Add))
    } else if g.current_integral_amount < cost {
        Some(overflowed(OverflowOperation::Sub))
    } else if g.total_win_nft_num + outcome->Ok_0 > u64::MAX || g.total_lose_nft_num + (mint_num
        - outcome->Ok_0) > u64::MAX {
        Some(overflowed(OverflowOperation::Add))
    } else {
        None
    }
}

/// What draws leave and hand back: their refusal, with nothing changed, or
/// the user's state, the totals and the record as the draws make them.
pub open spec fn mint_ensures(
    pre: &Storage,
    post: &Storage,
    r: &Result<Response, ContractError>,
    env: &Env,
    sender: &Addr,
    mint_num: u64,
) -> bool {
    match mint_failure(pre, env, sender, mint_num) {
        Some(e) => *r == Err::<Response, ContractError>(e) && *post == *pre,
        None => {
            let u = pre.user_state_of(sender);
            let g = pre.treasure_state;
            let cost = (pre.treasure_config.mint_nft_cost_integral * mint_num) as u128;
            let wins = draws(
                env,
                &pre.treasure_config,
                (pre.record_index + 1) as u64,
                mint_num as nat,
            )->Ok_0;
            &&& *r is Ok
            &&& r->Ok_0.messages@.len() == 0
            &&& wins <= mint_num
            &&& post.user_state_of(sender) == (TreasureUserState {
                current_integral_amount: (u.current_integral_amount - cost) as u128,
                total_cost_integral_amount: (u.total_cost_integral_amount + cost) as u128,
                win_nft_num: (u.win_nft_num + wins) as u64,
                lose_nft_num: (u.lose_nft_num + (mint_num - wins)) as u64,
                ..u
            })
            &&& post.treasure_user_state.map() == pre.treasure_user_state.map().insert(sender.key(), post.user_state_of(sender))
            &&& post.treasure_state == (TreasureState {
                current_integral_amount: (g.current_integral_amount - cost) as u128,
                total_win_nft_num: (g.total_win_nft_num + wins) as u64,
                total_lose_nft_num: (g.total_lose_nft_num + (mint_num - wins)) as u64,
                ..g
            })
            &&& post.record_index == pre.record_index + 2
            &&& post.mint_nft_records_of(sender) == pre.mint_nft_records_of(
                sender,
            ).insert(
                record_key((pre.record_index + 2) as u64),
                UserMintNftRecord {
                    record_id: (pre.record_index + 2) as u64,
                    user_addr: *sender,
                    mint_nft_num: mint_num,
                    mint_time: env.spec_seconds(),
                    mint_nft_cost_integral_amount: cost,
                    win_nft_num: wins as u64,
                },
            )
            &&& forall|other: Addr|
                other.key() != sender.key() ==> #[trigger] post.mint_nft_records_of(&other)
                    == pre.mint_nft_records_of(&other)
            &&& post.treasure_config == pre.treasure_config
            &&& post.lock_records == pre.lock_records
            &&& post.withdraw_records == pre.withdraw_records
        },
    }
}

/// Pays for `mint_num` draws with the sender's points and counts how many of
/// them win.
pub fn pre_mint_nft(storage: &mut Storage, env: &Env, sender: &Addr, mint_num: u64) -> (r: Result<
    Response,
    ContractError,
>)
    ensures
        mint_ensures(old(storage), final(storage), &r, env, sender, mint_num),
{
    if mint_num < 1 {
        return Err(ContractError::InvalidMintNum {  });
    }
    let current_time: u64 = env.seconds();
    let mut user_state = read_treasure_user_state(storage, sender);
    let mint_integral_amount: u128 = match storage.treasure_config.mint_nft_cost_integral.checked_mul(
        mint_num as u128,
    ) {
        Some(v) => v,
        None => {
            return Err(mul_overflow());
        },
    };
    if mint_integral_amount > user_state.current_integral_amount {
        return Err(ContractError::InsufficientIntegralFunds {  });
    }
    let first_id: u64 = match storage.record_index.checked_add(1) {
        Some(v) => v,
        None => {
            return Err(
                ContractError::Std(
                    StdError::overflow(OverflowError { operation: OverflowOperation::Add }),
                ),
            );
        },
    };
    let mut win_nft_num: u64 = 0;
    let mut lost_nft_num: u64 = 0;
    let mut i: u64 = 0;
    while i < mint_num
        invariant
            i <= mint_num,
            *storage == *old(storage),
            first_id == old(storage).record_index + 1,
            draws(env, &storage.treasure_config, first_id, i as nat) == Ok::<nat, ContractError>(
                win_nft_num as nat,
            ),
            win_nft_num + lost_nft_num == i,
            mint_num >= 1,
            mint_integral_amount == storage.treasure_config.mint_nft_cost_integral * mint_num,
            mint_integral_amount <= storage.user_state_of(sender).current_integral_amount,
        decreases mint_num - i,
    {
        let unique_factor: u64 = match first_id.checked_add(i) {
            Some(v) => v,
            None => {
                proof {
                    assert(draws(env, &storage.treasure_config, first_id, (i + 1) as nat)
                        == Err::<nat, ContractError>(overflowed(OverflowOperation::Add)));
                    lemma_draws_stay_refused(
                        env,
                        &storage.treasure_config,
                        first_id,
                        (i + 1) as nat,
                        mint_num as nat,
                    );
                }
                return Err(add_overflow());
            },
        };
        let mut text = String::new();
        push_decimal(&mut text, unique_factor);
        proof {
            assert(text@ =~= decimal(unique_factor as nat));
            assert(crate::treasure::random_rules::views(Seq::<String>::empty()) =~= Seq::<
                Seq<char>,
            >::empty());
        }
        let winning = match get_winning(
            env,
            text,
            Vec::new(),
            &storage.treasure_config.winning_num,
            storage.treasure_config.mod_num,
        ) {
            Ok(v) => v,
            Err(e) => {
                proof {
                    assert(draws(env, &storage.treasure_config, first_id, (i + 1) as nat)
                        == Err::<nat, ContractError>(e));
                    lemma_draws_stay_refused(
                        env,
                        &storage.treasure_config,
                        first_id,
                        (i + 1) as nat,
                        mint_num as nat,
                    );
                }
                return Err(e);
            },
        };
        if winning {
            win_nft_num += 1;
        } else {
            lost_nft_num += 1;
        }
        i += 1;
    }
    let record_id: u64 = match first_id.checked_add(1) {
        Some(v) => v,
        None => {
            return Err(
                ContractError::Std(
                    StdError::overflow(OverflowError { operation: OverflowOperation::Add }),
                ),
            );
        },
    };
    let mut global_state = read_treasure_state(storage);
    let record = UserMintNftRecord {
        record_id,
        user_addr: sender.clone(),
        mint_nft_num: mint_num,
        mint_time: current_time,
        mint_nft_cost_integral_amount: mint_integral_amount,
        win_nft_num,
    };
    user_state.current_integral_amount = user_state.current_integral_amount - mint_integral_amount;
    user_state.total_cost_integral_amount = checked_add(
        user_state.total_cost_integral_amount,
        mint_integral_amount,
    )?;
    user_state.win_nft_num = checked_count(user_state.win_nft_num, win_nft_num)?;
    user_state.lose_nft_num = checked_count(user_state.lose_nft_num, lost_nft_num)?;
    global_state.current_integral_amount = checked_sub(
        global_state.current_integral_amount,
        mint_integral_amount,
    )?;
    global_state.total_win_nft_num = checked_count(global_state.total_win_nft_num, win_nft_num)?;
    global_state.total_lose_nft_num = checked_count(global_state.total_lose_nft_num, lost_nft_num)?;
    storage.record_index = record_id;
    let ghost before_record = *storage;
    store_user_mint_nft_record(storage, &record);
    let ghost after_record = *storage;
    store_treasure_user_state(storage, sender, &user_state);
    store_treasure_state(storage, &global_state);
    proof {
        assert forall|other: Addr| other.key() != sender.key() implies #[trigger] storage.mint_nft_records_of(
            &other,
        ) == old(storage).mint_nft_records_of(&other) by {
            assert(after_record.mint_nft_records_of(&other) == before_record.mint_nft_records_of(&other));
        }
    }
    Ok(Response::new())
}

/// The sum of two counts, or the overflow.
pub fn checked_count(a: u64, b: u64) -> (r: Result<u64, ContractError>)
    ensures
        a + b <= u64::MAX ==> r == Ok::<u64, ContractError>((a + b) as u64),
        a + b > u64::MAX ==> r == Err::<u64, ContractError>(overflowed(OverflowOperation::Add)),
{
    match a.checked_add(b) {
        Some(v) => Ok(v),
        None => Err(add_overflow()),
    }
}

/// Draws of which the first few are refused are refused however many more
/// are made, and for the same reason.
pub proof fn lemma_draws_stay_refused(
    env: &Env,
    config: &TreasureConfig,
    first_id: u64,
    upto: nat,
    n: nat,
)
    requires
        upto <= n,
        draws(env, config, first_id, upto) is Err,
    ensures
        draws(env, config, first_id, n) == draws(env, config, first_id, upto),
    decreases n - upto,
{
    if upto < n {
        lemma_draws_stay_refused(env, config, first_id, upto, (n - 1) as nat);
    }
}

} // verus!
