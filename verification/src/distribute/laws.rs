//! What holds of the rules' releases whatever is asked.

use vstd::prelude::*;
use vstd::arithmetic::div_mod::{lemma_div_is_ordered, lemma_div_multiples_vanish,
    lemma_fundamental_div_mod};
use vstd::arithmetic::mul::{lemma_mul_inequality, lemma_mul_is_commutative};
use crate::addr::Addr;
use crate::distribute::helper::BASE_RATE_12;
use crate::distribute::model::{add_rule_failure, add_rule_next, claim_failure, claimed_state};
use crate::distribute::msg::RuleConfigMsg;
use crate::distribute::state::{RuleConfig, RuleConfigState, StorageView};
use crate::distribute::vesting::{claimable_failure, entitled_spec, gated, linear_from,
    linear_release, nothing_due};

verus! {

/// Between its start and its end the linear release is reckoned without
/// overflow, is not negative and does not pass the rule's linear amount.
pub proof fn law_linear_within_amount(rule: &RuleConfig, state: &RuleConfigState, now: u64)
    requires
        rule.wf(),
        state.fits(rule),
        rule.start_linear_release_time < now <= rule.end_linear_release_time,
    ensures
        (now - linear_from(rule, state)) * rule.linear_release_per_second <= u128::MAX,
        0 <= linear_release(rule, state, now) <= rule.unlock_linear_release_amount,
{
    let passed = (now - rule.start_linear_release_time) as int;
    let duration = rule.unlock_linear_release_time as int;
    let rate = rule.linear_release_per_second as int;
    let scaled = rule.unlock_linear_release_amount * BASE_RATE_12;
    lemma_fundamental_div_mod(scaled, duration);
    assert(duration * rate <= scaled) by {
        assert(scaled % duration >= 0);
    }
    lemma_mul_inequality(passed, duration, rate);
    assert(passed * rate <= scaled);
    assert(0 <= passed * rate) by (nonlinear_arith)
        requires
            0 <= passed,
            0 <= rate,
    ;
    lemma_div_is_ordered(passed * rate, scaled, BASE_RATE_12 as int);
    lemma_div_is_ordered(0, passed * rate, BASE_RATE_12 as int);
    lemma_mul_is_commutative(rule.unlock_linear_release_amount as int, BASE_RATE_12 as int);
    lemma_div_multiples_vanish(rule.unlock_linear_release_amount as int, BASE_RATE_12 as int);
}

/// As time goes on, what may be claimed under a rule with an unchanged state
/// never goes down: not the lump, not the linear release, not the two
/// together less what is claimed.
pub proof fn law_entitled_monotonic(rule: &RuleConfig, state: &RuleConfigState, now1: u64, now2: u64)
    requires
        rule.wf(),
        state.fits(rule),
        now1 <= now2,
        claimable_failure(rule, state, now1) is None,
        claimable_failure(rule, state, now2) is None,
    ensures
        entitled_spec(rule, state, now1).release_amount <= entitled_spec(
            rule,
            state,
            now2,
        ).release_amount,
        entitled_spec(rule, state, now1).linear_release_amount <= entitled_spec(
            rule,
            state,
            now2,
        ).linear_release_amount,
        entitled_spec(rule, state, now1).can_claim_amount <= entitled_spec(
            rule,
            state,
            now2,
        ).can_claim_amount,
{
    if !nothing_due(rule, state, now1) {
        let start = rule.start_linear_release_time;
        let end = rule.end_linear_release_time;
        if now1 > start && now1 <= end {
            law_linear_within_amount(rule, state, now1);
            if now2 <= end {
                law_linear_within_amount(rule, state, now2);
                let rate = rule.linear_release_per_second as int;
                lemma_mul_inequality((now1 - start) as int, (now2 - start) as int, rate);
                lemma_div_is_ordered(
                    (now1 - start) * rate,
                    (now2 - start) * rate,
                    BASE_RATE_12 as int,
                );
            }
        } else if now1 <= start && now2 > start && now2 <= end {
            law_linear_within_amount(rule, state, now2);
        }
    }
}

/// After the end of the linear release the time no longer matters: at any
/// two times after it, on the same side of the start of the lock, the same
/// may be claimed, and the reckoning fails at both or at neither.
pub proof fn law_saturation(rule: &RuleConfig, state: &RuleConfigState, now1: u64, now2: u64)
    requires
        now1 > rule.end_linear_release_time,
        now2 > rule.end_linear_release_time,
        rule.start_linear_release_time <= rule.end_linear_release_time,
        gated(rule, now1) == gated(rule, now2),
    ensures
        entitled_spec(rule, state, now1) == entitled_spec(rule, state, now2),
        claimable_failure(rule, state, now1) == claimable_failure(rule, state, now2),
{
}

/// After the end of the linear release a rule whose state fits it releases
/// the lump and the whole linear amount, less what is claimed.
pub proof fn law_full_release(rule: &RuleConfig, state: &RuleConfigState, now: u64)
    requires
        rule.wf(),
        state.fits(rule),
        now > rule.end_linear_release_time,
        !nothing_due(rule, state, now),
    ensures
        linear_release(rule, state, now) == rule.unlock_linear_release_amount,
        claimable_failure(rule, state, now) is None ==> entitled_spec(
            rule,
            state,
            now,
        ).can_claim_amount == rule.start_release_amount + rule.unlock_linear_release_amount
            - state.claimed_amount,
{
}

/// A claim that goes through leaves a state that fits the rule: no more is
/// claimed than the rule's total.
pub proof fn law_claim_keeps_fit(rule: &RuleConfig, state: &RuleConfigState, now: u64, sender: &Addr)
    requires
        state.fits(rule),
        claim_failure(rule, state, now, sender) is None,
    ensures
        claimed_state(rule, state, now).fits(rule),
        claimed_state(rule, state, now).claimed_amount >= state.claimed_amount,
{
}

/// A second claim at the time of a claim that went through goes through,
/// mints nothing and changes nothing.
pub proof fn law_second_claim_is_empty(rule: &RuleConfig, state: &RuleConfigState, now: u64, sender: &Addr)
    requires
        state.fits(rule),
        claim_failure(rule, state, now, sender) is None,
    ensures
        ({
            let after = claimed_state(rule, state, now);
            &&& claim_failure(rule, &after, now, sender) is None
            &&& entitled_spec(rule, &after, now).can_claim_amount == 0
            &&& claimed_state(rule, &after, now) == after
        }),
{
    let after = claimed_state(rule, state, now);
    assert(linear_release(rule, &after, now) == linear_release(rule, state, now));
}

/// Where all of a rule's total is claimed, a claim by the owner goes through
/// at any time, with nothing due and the state as it was.
pub proof fn law_claim_of_nothing_goes_through(
    rule: &RuleConfig,
    state: &RuleConfigState,
    now: u64,
    sender: &Addr,
)
    requires
        state.claimed_amount == rule.rule_total_amount,
        rule.rule_owner@ == sender@,
    ensures
        claim_failure(rule, state, now, sender) is None,
        entitled_spec(rule, state, now).can_claim_amount == 0,
        claimed_state(rule, state, now) == *state,
{
}

/// Every rule is kept with a state that fits it.
pub open spec fn all_fit(s: &StorageView) -> bool {
    forall|k: Seq<u8>| #[trigger]
        s.rule_config.contains_key(k) ==> s.rule_config_state.contains_key(k)
            && s.rule_config_state[k].fits(&s.rule_config[k])
}

/// A claim that goes through leaves every rule with a state that fits it.
pub proof fn law_claim_keeps_all_fit(s: &StorageView, key: Seq<u8>, now: u64, sender: &Addr)
    requires
        all_fit(s),
        s.rule_config.contains_key(key),
        claim_failure(&s.rule_config[key], &s.rule_config_state[key], now, sender) is None,
    ensures
        all_fit(
            &(StorageView {
                rule_config_state: s.rule_config_state.insert(
                    key,
                    claimed_state(&s.rule_config[key], &s.rule_config_state[key], now),
                ),
                ..*s
            }),
        ),
{
    law_claim_keeps_fit(&s.rule_config[key], &s.rule_config_state[key], now, sender);
    let next = StorageView {
        rule_config_state: s.rule_config_state.insert(
            key,
            claimed_state(&s.rule_config[key], &s.rule_config_state[key], now),
        ),
        ..*s
    };
    assert forall|k: Seq<u8>| #[trigger] next.rule_config.contains_key(k) implies next.rule_config_state.contains_key(
        k,
    ) && next.rule_config_state[k].fits(&next.rule_config[k]) by {
        assert(s.rule_config.contains_key(k));
    }
}

/// A rule that is added comes with derived fields that its base fields give
/// and with a state that fits it, and leaves the other rules as they were.
pub proof fn law_add_rule_keeps_all_fit(s: &StorageView, sender: &Addr, key: Seq<u8>, msg: &RuleConfigMsg)
    requires
        all_fit(s),
        add_rule_failure(s, sender, key, msg) is None,
    ensures
        all_fit(&add_rule_next(s, key, msg)),
        add_rule_next(s, key, msg).rule_config[key].wf(),
        add_rule_next(s, key, msg).distribute_config.rules_total_amount
            <= s.distribute_config.total_amount,
{
    let next = add_rule_next(s, key, msg);
    assert forall|k: Seq<u8>| #[trigger] next.rule_config.contains_key(k) implies next.rule_config_state.contains_key(
        k,
    ) && next.rule_config_state[k].fits(&next.rule_config[k]) by {
        if k != key {
            assert(s.rule_config.contains_key(k));
        }
    }
}

} // verus!
