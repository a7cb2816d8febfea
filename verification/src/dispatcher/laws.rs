//! What holds of the dispatcher whatever is asked of it.

use vstd::prelude::*;
use vstd::arithmetic::div_mod::{lemma_div_is_ordered, lemma_fundamental_div_mod};
use vstd::arithmetic::mul::lemma_mul_inequality;
use crate::addr::Addr;
use crate::dispatcher::error::ContractError;
use crate::dispatcher::model::{claimed_user, new_user_state};
use crate::dispatcher::model::{base_lock, base_unlock, add_user_failure, add_user_next, add_users_failure,
    add_users_next, execute_failure, execute_step, regret_claim_amount, regret_claim_failure,
    regret_claim_next, user_claim_amount, user_claim_failure, user_claim_next,
    user_regret_failure, user_regret_next};
use crate::dispatcher::msg::{AddUserMsg, ExecuteMsg, UserInfoResponse};
use crate::dispatcher::querier::{is_user_info, user_info_fits};
use crate::dispatcher::state::{user_page_of, GlobalConfig, Storage, StorageView, UserState};
use crate::order::{lemma_lex_asymmetric, lemma_lex_irreflexive, lemma_lex_successor,
    lemma_lex_total, lex_lt};
use crate::pagination::{page_limit_spec, range_start_spec};
use crate::table::page_first;
use crate::dispatcher::vesting::{claimable_periods, elapsed_periods, entitled_spec,
    lock_claimable, regret_unlock_claimable, settled_period, user_unlock_claimable};
use crate::math::lemma_from_nat;

verus! {

/// No record, and not the pool, has more claimed than it is entitled to.
pub open spec fn claims_hold(s: &StorageView) -> bool {
    &&& forall|k: Seq<u8>| #[trigger]
        s.user_states.contains_key(k) ==> s.user_states[k].claims_within()
    &&& s.regret_info.claims_within()
}

/// The state is sound: the schedule can be computed with, nothing is claimed
/// beyond an entitlement, what is registered stays within the caps, and the
/// index files each account under its own bytes.
pub open spec fn sound(s: &StorageView) -> bool {
    &&& s.global_config.wf()
    &&& claims_hold(s)
    &&& s.global_state.within(&s.global_config)
    &&& s.index_by_account()
}

/// One operation with the time at which and the account for which it is
/// asked.
pub struct Step {
    pub now: u64,
    pub sender: Addr,
    pub msg: ExecuteMsg,
}

/// The state after a sequence of operations, each refused or carried out in
/// the state that those before it leave.
pub open spec fn run(s: StorageView, steps: Seq<Step>) -> StorageView
    decreases steps.len(),
{
    if steps.len() == 0 {
        s
    } else {
        run(execute_step(&s, steps[0].now, &steps[0].sender, &steps[0].msg), steps.drop_first())
    }
}

/// The sum of the unlocked amounts of a run of registrations.
pub open spec fn sum_unlock(msgs: Seq<AddUserMsg>) -> nat
    decreases msgs.len(),
{
    if msgs.len() == 0 {
        0
    } else {
        msgs[0].unlock_amount.value() + sum_unlock(msgs.drop_first())
    }
}

/// A registration that is not refused keeps a sound state sound.
pub proof fn law_add_user_sound(s: &StorageView, msg: &AddUserMsg)
    requires
        sound(s),
        add_user_failure(s, msg) is None,
    ensures
        sound(&add_user_next(s, msg)),
        add_user_next(s, msg).global_config == s.global_config,
{
    let next = add_user_next(s, msg);
    let existing = s.user_states[msg.user.key()];
    lemma_from_nat((base_unlock(&s.global_state, &existing, msg) + msg.unlock_amount.value()) as nat);
    lemma_from_nat((base_lock(&s.global_state, &existing, msg) + msg.lock_amount.value()) as nat);
    assert forall|k: Seq<u8>| #[trigger] next.user_states.contains_key(k) implies next.user_states[k].claims_within() by {
        if k != msg.user.key() {
            assert(s.user_states.contains_key(k));
        }
    }
}

/// A run of registrations that is not refused keeps a sound state sound.
pub proof fn law_add_users_sound(s: &StorageView, msgs: Seq<AddUserMsg>)
    requires
        sound(s),
        add_users_failure(s, msgs) is None,
    ensures
        sound(&add_users_next(s, msgs)),
        add_users_next(s, msgs).global_config == s.global_config,
    decreases msgs.len(),
{
    if msgs.len() > 0 {
        law_add_user_sound(s, &msgs[0]);
        law_add_users_sound(&add_user_next(s, &msgs[0]), msgs.drop_first());
    }
}

/// Whatever operation is asked for, by whom and when, a sound state stays
/// sound: after it no record and not the pool has more claimed than its
/// entitlement, and what is registered stays within the caps.
pub proof fn law_step_sound(s: &StorageView, now: u64, sender: &Addr, msg: &ExecuteMsg)
    requires
        sound(s),
    ensures
        sound(&execute_step(s, now, sender, msg)),
{
    let next = execute_step(s, now, sender, msg);
    if execute_failure(s, now, sender, msg) is None {
        match msg {
            ExecuteMsg::UpdateConfig(m) => {},
            ExecuteMsg::AddUser(msgs) => {
                law_add_users_sound(s, msgs@);
            },
            ExecuteMsg::UserRegret {  } => {
                let state = s.user_states[sender.key()];
                lemma_from_nat(
                    s.regret_info.total_unlock_amount.value() + state.total_user_unlock_amount.value(),
                );
                lemma_from_nat(
                    s.regret_info.total_lock_amount.value() + state.total_user_lock_amount.value(),
                );
                assert forall|k: Seq<u8>| #[trigger] next.user_states.contains_key(k) implies next.user_states[k].claims_within() by {
                    if k != sender.key() {
                        assert(s.user_states.contains_key(k));
                    }
                }
            },
            ExecuteMsg::UserClaim {  } => {
                let state = s.user_states[sender.key()];
                lemma_from_nat(state.claimed_unlock_amount.value() + user_unlock_claimable(&state));
                lemma_from_nat(
                    state.claimed_lock_amount.value() + lock_claimable(
                        &s.global_config,
                        state.user_per_lock_amount,
                        state.last_claimed_period,
                        now,
                    ),
                );
                assert forall|k: Seq<u8>| #[trigger] next.user_states.contains_key(k) implies next.user_states[k].claims_within() by {
                    if k != sender.key() {
                        assert(s.user_states.contains_key(k));
                    }
                }
            },
            ExecuteMsg::RegretClaim {  } => {
                let info = s.regret_info;
                lemma_from_nat(
                    info.total_claimed_unlock_amount.value() + regret_unlock_claimable(&info),
                );
                lemma_from_nat(
                    info.total_claimed_lock_amount.value() + lock_claimable(
                        &s.global_config,
                        info.per_lock_amount,
                        info.last_claimed_period,
                        now,
                    ),
                );
            },
        }
    }
}

/// After any sequence of operations on a sound state, no record and not the
/// pool has more claimed than its entitlement, and what is registered stays
/// within the caps.
pub proof fn law_run_sound(s: StorageView, steps: Seq<Step>)
    requires
        sound(&s),
    ensures
        sound(&run(s, steps)),
    decreases steps.len(),
{
    if steps.len() > 0 {
        law_step_sound(&s, steps[0].now, &steps[0].sender, &steps[0].msg);
        law_run_sound(
            execute_step(&s, steps[0].now, &steps[0].sender, &steps[0].msg),
            steps.drop_first(),
        );
    }
}

/// The number of periods that have passed never goes down as time goes on.
pub proof fn law_elapsed_monotonic(config: &GlobalConfig, now1: u64, now2: u64)
    requires
        config.wf(),
        now1 <= now2,
    ensures
        elapsed_periods(config, now1) <= elapsed_periods(config, now2),
{
    if now1 > config.start_lock_period_time {
        lemma_div_is_ordered(
            now1 - config.start_lock_period_time,
            now2 - config.start_lock_period_time,
            config.duration_per_period as int,
        );
    }
}

/// For one record, what may be claimed never goes down as time goes on:
/// neither the unlocked nor the locked amount.
pub proof fn law_entitled_monotonic(config: &GlobalConfig, state: &UserState, now1: u64, now2: u64)
    requires
        config.wf(),
        now1 <= now2,
    ensures
        entitled_spec(config, state, now1).0 <= entitled_spec(config, state, now2).0,
        entitled_spec(config, state, now1).1 <= entitled_spec(config, state, now2).1,
{
    law_elapsed_monotonic(config, now1, now2);
    lemma_mul_inequality(
        claimable_periods(config, state.last_claimed_period, now1) as int,
        claimable_periods(config, state.last_claimed_period, now2) as int,
        state.user_per_lock_amount.value() as int,
    );
    assert(state.user_per_lock_amount.value() * claimable_periods(
        config,
        state.last_claimed_period,
        now1,
    ) == claimable_periods(config, state.last_claimed_period, now1)
        * state.user_per_lock_amount.value()) by (nonlinear_arith);
    assert(state.user_per_lock_amount.value() * claimable_periods(
        config,
        state.last_claimed_period,
        now2,
    ) == claimable_periods(config, state.last_claimed_period, now2)
        * state.user_per_lock_amount.value()) by (nonlinear_arith);
}

/// A claim settles a record up to a period that is not before the one it was
/// settled to.
pub proof fn law_settled_never_regresses(config: &GlobalConfig, last_claimed_period: u64, now: u64)
    requires
        config.wf(),
    ensures
        settled_period(config, last_claimed_period, now) >= last_claimed_period,
        settled_period(config, last_claimed_period, now) <= config.periods || settled_period(
            config,
            last_claimed_period,
            now,
        ) == last_claimed_period,
{
}

/// A second claim at the time of a claim that went through goes through,
/// transfers nothing and changes nothing.
pub proof fn law_second_claim_is_empty(s: &StorageView, now: u64, sender: &Addr)
    requires
        s.global_config.wf(),
        user_claim_failure(s, now, sender) is None,
    ensures
        user_claim_failure(&user_claim_next(s, now, sender), now, sender) is None,
        user_claim_amount(&user_claim_next(s, now, sender), now, sender) == 0,
        user_claim_next(&user_claim_next(s, now, sender), now, sender) == user_claim_next(
            s,
            now,
            sender,
        ),
{
    let s1 = user_claim_next(s, now, sender);
    let u0 = s.user_states[sender.key()];
    let u1 = s1.user_states[sender.key()];
    let unlock = user_unlock_claimable(&u0);
    let lock = lock_claimable(&s.global_config, u0.user_per_lock_amount, u0.last_claimed_period, now);
    lemma_from_nat(u0.claimed_unlock_amount.value() + unlock);
    lemma_from_nat(u0.claimed_lock_amount.value() + lock);
    lemma_from_nat(s.global_state.total_user_claimed_unlock_amount.value() + unlock);
    lemma_from_nat(s.global_state.total_user_claimed_lock_amount.value() + lock);
    lemma_from_nat(u1.claimed_unlock_amount.value());
    lemma_from_nat(u1.claimed_lock_amount.value());
    lemma_from_nat(s1.global_state.total_user_claimed_unlock_amount.value());
    lemma_from_nat(s1.global_state.total_user_claimed_lock_amount.value());
    assert(claimable_periods(&s1.global_config, u1.last_claimed_period, now) == 0);
    assert(u1.user_per_lock_amount.value() * 0 == 0) by (nonlinear_arith);
    let s2 = user_claim_next(&s1, now, sender);
    assert(s2.user_states =~= s1.user_states);
}

/// A second claim from the pool at the time of one that went through goes
/// through, transfers nothing and changes nothing.
pub proof fn law_second_regret_claim_is_empty(s: &StorageView, now: u64, sender: &Addr)
    requires
        s.global_config.wf(),
        regret_claim_failure(s, now, sender) is None,
    ensures
        regret_claim_failure(&regret_claim_next(s, now), now, sender) is None,
        regret_claim_amount(&regret_claim_next(s, now), now) == 0,
        regret_claim_next(&regret_claim_next(s, now), now) == regret_claim_next(s, now),
{
    let s1 = regret_claim_next(s, now);
    let before = s.regret_info;
    let info = s1.regret_info;
    let unlock = regret_unlock_claimable(&before);
    let lock = lock_claimable(&s.global_config, before.per_lock_amount, before.last_claimed_period, now);
    lemma_from_nat(before.total_claimed_unlock_amount.value() + unlock);
    lemma_from_nat(before.total_claimed_lock_amount.value() + lock);
    lemma_from_nat(s.global_state.total_user_claimed_unlock_amount.value() + unlock);
    lemma_from_nat(s.global_state.total_user_claimed_lock_amount.value() + lock);
    lemma_from_nat(info.total_claimed_unlock_amount.value());
    lemma_from_nat(info.total_claimed_lock_amount.value());
    lemma_from_nat(s1.global_state.total_user_claimed_unlock_amount.value());
    lemma_from_nat(s1.global_state.total_user_claimed_lock_amount.value());
    assert(claimable_periods(&s1.global_config, info.last_claimed_period, now) == 0);
    assert(info.per_lock_amount.value() * 0 == 0) by (nonlinear_arith);
}

/// A beneficiary that has forfeited cannot claim: a claim under its account
/// is refused at any time because of the forfeiture, and changes nothing.
pub proof fn law_no_claim_after_regret(s: &StorageView, now: u64, sender: &Addr)
    requires
        s.user_states.contains_key(sender.key()),
        s.user_states[sender.key()].is_regret,
    ensures
        user_claim_failure(s, now, sender) == Some(ContractError::UserAlreadyRegret(*sender)),
        execute_step(s, now, sender, &(ExecuteMsg::UserClaim {  })) == *s,
{
}

/// After a forfeiture that went through, every claim of the same beneficiary
/// is refused because of it, at whatever time it is asked for.
pub proof fn law_regret_excludes_claim(s: &StorageView, now: u64, later: u64, sender: &Addr)
    requires
        user_regret_failure(s, now, sender) is None,
    ensures
        user_claim_failure(&user_regret_next(s, now, sender), later, sender) == Some(
            ContractError::UserAlreadyRegret(*sender),
        ),
{
}

/// A claim from the pool by any account but the pool's receiver is refused
/// for want of authority, whatever the time and whatever the pool holds.
pub proof fn law_pool_claim_for_receiver_only(s: &StorageView, now: u64, sender: &Addr)
    requires
        s.global_config.regret_token_receiver@.len() > 0,
        sender@ != s.global_config.regret_token_receiver@,
    ensures
        regret_claim_failure(s, now, sender) == Some(ContractError::Unauthorized {  }),
        execute_step(s, now, sender, &(ExecuteMsg::RegretClaim {  })) == *s,
{
}

/// A forfeiture adds exactly the beneficiary's amounts to the pool's totals
/// and leaves the registered and claimed totals as they were.
pub proof fn law_regret_moves_amounts(s: &StorageView, now: u64, sender: &Addr)
    requires
        user_regret_failure(s, now, sender) is None,
    ensures
        ({
            let next = user_regret_next(s, now, sender);
            let state = s.user_states[sender.key()];
            &&& next.regret_info.total_unlock_amount.value() == s.regret_info.total_unlock_amount.value()
                + state.total_user_unlock_amount.value()
            &&& next.regret_info.total_lock_amount.value() == s.regret_info.total_lock_amount.value()
                + state.total_user_lock_amount.value()
            &&& next.regret_info.per_lock_amount.value() == s.regret_info.per_lock_amount.value()
                + state.user_per_lock_amount.value()
            &&& next.global_state == s.global_state
            &&& next.global_config == s.global_config
        }),
{
    let next = user_regret_next(s, now, sender);
    let state = s.user_states[sender.key()];
    lemma_from_nat(s.regret_info.total_unlock_amount.value() + state.total_user_unlock_amount.value());
    lemma_from_nat(s.regret_info.total_lock_amount.value() + state.total_user_lock_amount.value());
    lemma_from_nat(s.regret_info.per_lock_amount.value() + state.user_per_lock_amount.value());
}

/// A run of new registrations whose unlocked amounts, added to what is
/// registered, pass the cap is refused.
pub proof fn law_cap_enforced(s: &StorageView, msgs: Seq<AddUserMsg>)
    requires
        s.global_state.within(&s.global_config),
        s.global_state.total_user_unlock_amount.value() + sum_unlock(msgs)
            > s.global_config.total_unlock_amount.value(),
        forall|i: int| 0 <= i < msgs.len() ==> !(#[trigger] msgs[i]).replace,
    ensures
        add_users_failure(s, msgs) is Some,
    decreases msgs.len(),
{
    if msgs.len() > 0 {
        if add_user_failure(s, &msgs[0]) is None {
            let next = add_user_next(s, &msgs[0]);
            lemma_from_nat(
                s.global_state.total_user_unlock_amount.value() + msgs[0].unlock_amount.value(),
            );
            lemma_from_nat(
                s.global_state.total_user_lock_amount.value() + msgs[0].lock_amount.value(),
            );
            assert forall|i: int| 0 <= i < msgs.drop_first().len() implies !(
            #[trigger] msgs.drop_first()[i]).replace by {
                assert(msgs.drop_first()[i] == msgs[i + 1]);
            }
            law_cap_enforced(&next, msgs.drop_first());
        }
    }
}

/// A run of new registrations whose unlocked amounts pass the cap changes
/// nothing, whoever asks for it and when: the totals, the records and the
/// index stay as they were.
pub proof fn law_cap_enforced_leaves_all_unchanged(
    s: &StorageView,
    now: u64,
    sender: &Addr,
    list: Vec<AddUserMsg>,
)
    requires
        s.global_state.within(&s.global_config),
        s.global_state.total_user_unlock_amount.value() + sum_unlock(list@)
            > s.global_config.total_unlock_amount.value(),
        forall|i: int| 0 <= i < list@.len() ==> !(#[trigger] list@[i]).replace,
    ensures
        execute_failure(s, now, sender, &ExecuteMsg::AddUser(list)) is Some,
        execute_step(s, now, sender, &ExecuteMsg::AddUser(list)) == *s,
{
    law_cap_enforced(s, list@);
}

/// A run of registrations keeps the index in order: where each account was
/// filed under its own bytes before, so it is after.
pub proof fn law_add_users_keep_index(s: &StorageView, msgs: Seq<AddUserMsg>)
    requires
        s.index_by_account(),
    ensures
        add_users_next(s, msgs).index_by_account(),
    decreases msgs.len(),
{
    if msgs.len() > 0 {
        let next = add_user_next(s, &msgs[0]);
        assert forall|k: Seq<u8>| #[trigger] next.user_page.contains_key(k) implies next.user_page[k].key()
            == k by {
            if k != msgs[0].user.key() {
                assert(s.user_page.contains_key(k));
            }
        }
        law_add_users_keep_index(&next, msgs.drop_first());
    }
}

/// Whatever operation is asked for, by whom and when, the index stays in
/// order: where each account was filed under its own bytes before, so it is
/// after.
pub proof fn law_step_keeps_index(s: &StorageView, now: u64, sender: &Addr, msg: &ExecuteMsg)
    requires
        s.index_by_account(),
    ensures
        execute_step(s, now, sender, msg).index_by_account(),
{
    if execute_failure(s, now, sender, msg) is None {
        match msg {
            ExecuteMsg::AddUser(msgs) => {
                law_add_users_keep_index(s, msgs@);
            },
            _ => {},
        }
    }
}

/// The answer for an account at `now` shows what a claim by that account at
/// `now` does where it goes through: the two amounts shown are together what
/// the claim transfers, and the period shown is the one up to which the
/// claim settles the record.
pub proof fn law_query_shows_the_claim(
    s: &StorageView,
    now: u64,
    user: &Addr,
    info: &UserInfoResponse,
)
    requires
        user_claim_failure(s, now, user) is None,
        is_user_info(s, now, user, info),
    ensures
        info.claimable_unlock_amount.value() + info.claimable_lock_amount.value()
            == user_claim_amount(s, now, user),
        info.current_period == user_claim_next(s, now, user).user_states[user.key()].last_claimed_period,
{
}

/// Where a claim by an account at `now` goes through, the question what the
/// account could claim at `now` is answered.
pub proof fn law_query_answers_where_claim_goes_through(s: &StorageView, now: u64, user: &Addr)
    requires
        user_claim_failure(s, now, user) is None,
    ensures
        user_info_fits(s, now, user),
{
}

/// After a forfeiture, and before the start time, the answer for an account
/// shows nothing as claimable.
pub proof fn law_query_shows_nothing_unclaimable(
    s: &StorageView,
    now: u64,
    user: &Addr,
    info: &UserInfoResponse,
)
    requires
        is_user_info(s, now, user, info),
        info.state.is_regret || now < s.global_config.start_time,
    ensures
        info.claimable_unlock_amount.value() == 0,
        info.claimable_lock_amount.value() == 0,
{
}

/// A page of the index and the page asked for with its last account as the
/// start follow each other without overlap and without a gap. Taken
/// together they are the accounts that stand in the index one after another
/// from the first that comes after `start_after`; they ascend strictly, so
/// that every account of the first page comes before every account of the
/// second and none stands in both; each comes after `start_after`, and no
/// account of the index before them does.
/// The first page is full, and so are the two together, unless the index
/// runs out.
pub proof fn law_user_pages_join(storage: &Storage, start_after: Option<Addr>, limit: Option<u32>)
    requires
        storage.user_page.wf(),
        storage@.index_by_account(),
        user_page_of(storage, start_after, limit).len() > 0,
    ensures
        ({
            let first_page = user_page_of(storage, start_after, limit);
            let second_page = user_page_of(storage, Some(first_page.last().1), limit);
            let both = first_page + second_page;
            let size = page_limit_spec(limit);
            let from = page_first(
                storage.user_page.keys(),
                range_start_spec(
                    match start_after {
                        Some(a) => Some(a.key()),
                        None => None,
                    },
                ),
            );
            let rest = storage.user_page@.len() - from;
            &&& 0 <= from <= storage.user_page@.len()
            &&& first_page.len() == if size < rest { size } else { rest }
            &&& both.len() == if 2 * size < rest { 2 * size } else { rest }
            &&& both == storage.user_page@.subrange(from, from + both.len())
            &&& forall|i: int, j: int|
                0 <= i < j < both.len() ==> lex_lt((#[trigger] both[i]).0, (#[trigger] both[j]).0)
            &&& forall|i: int, j: int|
                0 <= i < first_page.len() && 0 <= j < second_page.len() ==> lex_lt(
                    (#[trigger] first_page[i]).0,
                    (#[trigger] second_page[j]).0,
                )
            &&& forall|i: int| 0 <= i < both.len() ==> (#[trigger] both[i]).1.key() == both[i].0
            &&& start_after is Some ==> forall|i: int|
                0 <= i < both.len() ==> lex_lt(start_after->Some_0.key(), (#[trigger] both[i]).0)
            &&& start_after is Some ==> forall|i: int|
                0 <= i < from ==> !lex_lt(
                    start_after->Some_0.key(),
                    (#[trigger] storage.user_page@[i]).0,
                )
        }),
{
    let table = storage.user_page;
    let size = page_limit_spec(limit);
    let start = range_start_spec(
        match start_after {
            Some(a) => Some(a.key()),
            None => None,
        },
    );
    let first_page = user_page_of(storage, start_after, limit);
    let from = page_first(table.keys(), start);
    table.law_page_len(start, size);
    let last = from + first_page.len() - 1;
    assert(first_page.last() == table@[last]);
    table.law_entry_at(last);
    assert(storage@.user_page == table.map());
    assert(storage@.user_page.contains_key(table@[last].0));
    assert(first_page.last().1.key() == first_page.last().0);
    table.law_pages_join(start, size);
    table.law_page_len(start, 2 * size);
    table.law_page_keys(start, 2 * size);
    let both = table.page_of(start, 2 * size);
    assert(both =~= table@.subrange(from, from + both.len()));
    assert forall|i: int| 0 <= i < both.len() implies (#[trigger] both[i]).1.key() == both[i].0 by {
        assert(both[i] == table@[from + i]);
        table.law_entry_at(from + i);
        assert(storage@.user_page.contains_key(table@[from + i].0));
    }
    let second_page = user_page_of(storage, Some(first_page.last().1), limit);
    assert forall|i: int, j: int|
        0 <= i < first_page.len() && 0 <= j < second_page.len() implies lex_lt(
        (#[trigger] first_page[i]).0,
        (#[trigger] second_page[j]).0,
    ) by {
        assert(first_page[i] == both[i]);
        assert(second_page[j] == both[first_page.len() + j]);
    }
    if start_after is Some {
        let k = start_after->Some_0.key();
        assert forall|i: int| 0 <= i < both.len() implies lex_lt(k, (#[trigger] both[i]).0) by {
            lemma_lex_successor(both[i].0, k);
            lemma_lex_total(both[i].0, k);
        }
        assert forall|i: int| 0 <= i < from implies !lex_lt(k, (#[trigger] table@[i]).0) by {
            lemma_lex_successor(table@[i].0, k);
            lemma_lex_irreflexive(k);
            lemma_lex_asymmetric(table@[i].0, k);
        }
    }
}

/// A record is consistent with the schedule: it is settled up to a period
/// of the schedule, its instalments together do not pass its locked amount,
/// what it has claimed of the locked amount is its instalment for each
/// period settled, and of the unlocked amount it has claimed nothing or all.
pub open spec fn consistent(config: &GlobalConfig, state: &UserState) -> bool {
    &&& state.last_claimed_period <= config.periods
    &&& state.user_per_lock_amount.value() * config.periods
        <= state.total_user_lock_amount.value()
    &&& state.claimed_lock_amount.value() == state.user_per_lock_amount.value()
        * state.last_claimed_period
    &&& (state.claimed_unlock_amount.value() == 0 || state.claimed_unlock_amount.value()
        == state.total_user_unlock_amount.value())
}

/// The record that a registration creates is consistent with the schedule.
pub proof fn law_new_user_consistent(config: &GlobalConfig, msg: &AddUserMsg)
    requires
        config.wf(),
    ensures
        consistent(config, &new_user_state(config, msg)),
{
    let lock = msg.lock_amount.value() as int;
    let periods = config.periods as int;
    lemma_fundamental_div_mod(lock, periods);
    assert(0 <= lock / periods <= lock) by (nonlinear_arith)
        requires
            0 <= lock,
            0 < periods,
    ;
    lemma_from_nat((lock / periods) as nat);
    assert((lock / periods) * periods <= lock) by (nonlinear_arith)
        requires
            lock == periods * (lock / periods) + lock % periods,
            0 <= lock % periods,
    ;
    assert((lock / periods) * 0 == 0) by (nonlinear_arith);
}

/// A claim on a consistent record never claims more than the entitlement,
/// and where its sums fit it leaves the record consistent.
pub proof fn law_claim_within_entitlement(config: &GlobalConfig, state: &UserState, now: u64)
    requires
        config.wf(),
        consistent(config, state),
    ensures
        state.claimed_unlock_amount.value() + entitled_spec(config, state, now).0
            <= state.total_user_unlock_amount.value(),
        state.claimed_lock_amount.value() + entitled_spec(config, state, now).1
            <= state.total_user_lock_amount.value(),
        consistent(config, &claimed_user(config, state, now)),
{
    let per = state.user_per_lock_amount.value() as int;
    let last = state.last_claimed_period as int;
    let due = claimable_periods(config, state.last_claimed_period, now) as int;
    let periods = config.periods as int;
    assert(last + due <= periods);
    assert(per * last + per * due == per * (last + due)) by (nonlinear_arith);
    assert(per * (last + due) <= per * periods) by (nonlinear_arith)
        requires
            0 <= per,
            last + due <= periods,
    ;
    lemma_from_nat((per * (last + due)) as nat);
    lemma_from_nat(state.claimed_unlock_amount.value() + user_unlock_claimable(state));
    let after = claimed_user(config, state, now);
    assert(after.last_claimed_period == last + due);
}

/// A run of registrations deletes no record and no entry of the index.
pub proof fn law_add_users_keep_records(s: &StorageView, msgs: Seq<AddUserMsg>, key: Seq<u8>)
    ensures
        s.user_states.contains_key(key) ==> add_users_next(s, msgs).user_states.contains_key(key),
        s.user_page.contains_key(key) ==> add_users_next(s, msgs).user_page.contains_key(key),
    decreases msgs.len(),
{
    if msgs.len() > 0 {
        law_add_users_keep_records(&add_user_next(s, &msgs[0]), msgs.drop_first(), key);
    }
}

/// No operation deletes a record: an account that has one before has one
/// after, and an account in the index stays there.
pub proof fn law_step_keeps_records(
    s: &StorageView,
    now: u64,
    sender: &Addr,
    msg: &ExecuteMsg,
    key: Seq<u8>,
)
    ensures
        s.user_states.contains_key(key) ==> execute_step(s, now, sender, msg).user_states.contains_key(
            key,
        ),
        s.user_page.contains_key(key) ==> execute_step(s, now, sender, msg).user_page.contains_key(
            key,
        ),
{
    if execute_failure(s, now, sender, msg) is None {
        match msg {
            ExecuteMsg::AddUser(msgs) => {
                law_add_users_keep_records(s, msgs@, key);
            },
            _ => {},
        }
    }
}

} // verus!
