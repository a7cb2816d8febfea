use std::collections::BTreeMap;

use vesting_core::addr::Addr;
use vesting_core::distribute::contract::{execute, instantiate, query};
use vesting_core::distribute::error::ContractError;
use vesting_core::distribute::handler::{
    add_rule_config, claim, derive_rule, update_config, update_rule_config,
};
use vesting_core::distribute::helper::BASE_RATE_12;
use vesting_core::distribute::msg::{
    ExecuteMsg, InstantiateMsg, QueryClaimableInfoResponse, QueryMsg, QueryResponse,
    RuleConfigMsg, UpdateRuleConfigMsg,
};
use vesting_core::distribute::querier::{query_claimable_info, query_config, query_rule_info};
use vesting_core::distribute::state::{RuleConfigState, Storage};
use vesting_core::distribute::vesting::entitled;
use vesting_core::errors::{OverflowError, OverflowOperation, StdError};
use vesting_core::response::{Response, TokenMsg};

const CREATOR: &str = "creator";
const LOOT_BOX_OWNER: &str = "loot_box_owner";
const TEAM_OWNER: &str = "team_owner";
const DAO_OWNER: &str = "dao_owner";
const MM_OWNER: &str = "mm_owner";
const RESERVE_OWNER: &str = "reserve_owner";
const AIRDROP_OWNER: &str = "airdrop_owner";
const SEILOR_TOKEN: &str = "seilor_token";

fn rule(
    name: &str,
    owner: &str,
    total: u128,
    start_release: u128,
    lock_start: u64,
    lock_end: u64,
    linear_start: u64,
    linear_amount: u128,
    linear_time: u64,
) -> (String, RuleConfigMsg) {
    (
        name.to_string(),
        RuleConfigMsg {
            rule_name: name.to_string(),
            rule_owner: Addr::unchecked(owner),
            rule_total_amount: total,
            start_release_amount: start_release,
            lock_start_time: lock_start,
            lock_end_time: lock_end,
            start_linear_release_time: linear_start,
            unlock_linear_release_amount: linear_amount,
            unlock_linear_release_time: linear_time,
        },
    )
}

fn mock_instantiate_msg(distribute_token: Addr) -> InstantiateMsg {
    let mut rule_configs_map = Vec::new();
    rule_configs_map.push(rule(
        "loot_box",
        LOOT_BOX_OWNER,
        60000000000000u128,
        12000000000000u128,
        1688366468u64,
        1696315268u64,
        1696315269u64,
        48000000000000u128,
        31622399u64,
    ));
    rule_configs_map.push(rule(
        "team",
        TEAM_OWNER,
        150000000000000u128,
        0u128,
        1688366468u64,
        1704264068u64,
        1704264069u64,
        150000000000000u128,
        157852799u64,
    ));
    rule_configs_map.push(rule(
        "dao",
        DAO_OWNER,
        100000000000000u128,
        0u128,
        1688366468u64,
        1704264068u64,
        1704264069u64,
        100000000000000u128,
        94694400u64,
    ));
    rule_configs_map.push(rule(
        "mm",
        MM_OWNER,
        50000000000000u128,
        8000000000000u128,
        1688366468u64,
        1688366468u64,
        1688366468u64,
        42000000000000u128,
        55296000u64,
    ));
    rule_configs_map.push(rule(
        "reserve",
        RESERVE_OWNER,
        130000000000000u128,
        0u128,
        1688366468u64,
        1704264068u64,
        1704264069u64,
        130000000000000u128,
        94694400u64,
    ));
    rule_configs_map.push(rule(
        "airdrop",
        AIRDROP_OWNER,
        10000000000000u128,
        0u128,
        1688366468u64,
        1688366468u64,
        1688366468u64,
        10000000000000u128,
        31622400u64,
    ));
    InstantiateMsg {
        gov: None,
        total_amount: 500000000000000,
        distribute_token,
        rule_configs_map,
    }
}

fn mock_instantiate(msg: InstantiateMsg) -> Result<Storage, StdError> {
    instantiate(&Addr::unchecked(CREATOR), msg)
}

/// The token that the distributor mints: balances and the total supply.
struct Token {
    balances: BTreeMap<String, u128>,
    total_supply: u128,
}

impl Token {
    fn new() -> Token {
        Token { balances: BTreeMap::new(), total_supply: 0 }
    }

    fn balance(&self, who: &str) -> u128 {
        *self.balances.get(who).unwrap_or(&0)
    }

    fn settle(&mut self, res: Result<Response, ContractError>) {
        match res {
            Ok(response) => {
                for msg in response.messages {
                    match msg {
                        TokenMsg::Mint { contract_addr, recipient, amount, contract, msg } => {
                            assert_eq!(contract_addr, Addr::unchecked(SEILOR_TOKEN));
                            assert_eq!(contract, Some(recipient.to_string()));
                            assert_eq!(msg, None);
                            assert!(amount > 0);
                            *self.balances.entry(recipient.to_string()).or_insert(0) += amount;
                            self.total_supply += amount;
                        }
                        TokenMsg::Transfer { .. } => panic!("the distributor transfers nothing"),
                    }
                }
                println!("claim success");
            }
            Err(e) => println!("claim error:{:?}", e),
        }
    }
}

fn claimable(storage: &Storage, now: u64, rule_type: &str) -> QueryClaimableInfoResponse {
    query_claimable_info(storage, now, rule_type.to_string()).unwrap()
}

fn check_rule_type(
    storage: &mut Storage,
    token: &mut Token,
    now: u64,
    rule_type: &str,
    owner: &str,
    start_release_amount: u128,
    unlock_linear_release_amount: u128,
) {
    let res = claimable(storage, now, rule_type);
    assert_eq!(res.can_claim_amount, start_release_amount + unlock_linear_release_amount);
    token.settle(claim(storage, now, &Addr::unchecked(owner), rule_type.to_string(), None));
    println!("owner:{}", owner);
    assert_eq!(token.balance(owner), start_release_amount + unlock_linear_release_amount);
    let res = claimable(storage, now, rule_type);
    assert_eq!(res.can_claim_amount, 0u128);
}

#[test]
fn distribute_test_integration_claim_all() {
    let mut storage = mock_instantiate(mock_instantiate_msg(Addr::unchecked(SEILOR_TOKEN))).unwrap();
    let mut token = Token::new();
    let now = 1996315269u64;

    check_rule_type(
        &mut storage,
        &mut token,
        now,
        "loot_box",
        LOOT_BOX_OWNER,
        12000000000000u128,
        48000000000000u128,
    );
    check_rule_type(&mut storage, &mut token, now, "team", TEAM_OWNER, 0u128, 150000000000000u128);
    check_rule_type(&mut storage, &mut token, now, "dao", DAO_OWNER, 0u128, 100000000000000u128);
    check_rule_type(
        &mut storage,
        &mut token,
        now,
        "mm",
        MM_OWNER,
        8000000000000u128,
        42000000000000u128,
    );
    check_rule_type(
        &mut storage,
        &mut token,
        now,
        "reserve",
        RESERVE_OWNER,
        0u128,
        130000000000000u128,
    );
    check_rule_type(
        &mut storage,
        &mut token,
        now,
        "airdrop",
        AIRDROP_OWNER,
        0u128,
        10000000000000u128,
    );
    assert_eq!(token.total_supply, 500000000000000u128);

    // when all is claimed a further claim goes through, mints nothing and
    // changes nothing
    let before = query_rule_info(&storage, "team".to_string()).unwrap().rule_config_state;
    assert_eq!(before.claimed_amount, 150000000000000u128);
    let res = claim(&mut storage, now, &Addr::unchecked(TEAM_OWNER), "team".to_string(), None);
    assert_eq!(res.unwrap().messages.len(), 0);
    let after = query_rule_info(&storage, "team".to_string()).unwrap().rule_config_state;
    assert_eq!(before, after);
    assert_eq!(token.total_supply, 500000000000000u128);
    // also at a time before the lock started
    let res = claim(&mut storage, 0, &Addr::unchecked(TEAM_OWNER), "team".to_string(), None);
    assert_eq!(res.unwrap().messages.len(), 0);
    // but only from the owner
    let res = claim(&mut storage, now, &Addr::unchecked(DAO_OWNER), "team".to_string(), None);
    assert_eq!(res.err().unwrap(), ContractError::Unauthorized {});
}

#[test]
fn claim_without_a_state_for_the_rule_is_not_found() {
    let mut storage = mock_instantiate(mock_instantiate_msg(Addr::unchecked(SEILOR_TOKEN))).unwrap();
    assert!(storage.rule_config_state.remove("team".as_bytes()).is_some());
    let now = 1996315269u64;
    let res = claim(&mut storage, now, &Addr::unchecked(DAO_OWNER), "team".to_string(), None);
    assert_eq!(res.err().unwrap(), ContractError::Unauthorized {});
    let res = claim(&mut storage, now, &Addr::unchecked(TEAM_OWNER), "team".to_string(), None);
    assert_eq!(
        res.err().unwrap(),
        ContractError::Std(StdError::not_found("distribute::state::RuleConfigState"))
    );
    let res = execute(
        &mut storage,
        now,
        &Addr::unchecked(TEAM_OWNER),
        ExecuteMsg::Claim { rule_type: "team".to_string(), msg: None },
    );
    assert_eq!(
        res.err().unwrap(),
        ContractError::Std(StdError::not_found("distribute::state::RuleConfigState"))
    );
    // the other rules are claimed as before
    let res = claim(&mut storage, now, &Addr::unchecked(DAO_OWNER), "dao".to_string(), None);
    assert_eq!(res.unwrap().messages.len(), 1);
}

#[test]
fn distribute_test_integration() {
    let creator = Addr::unchecked(CREATOR);
    let mut storage = mock_instantiate(mock_instantiate_msg(Addr::unchecked(SEILOR_TOKEN))).unwrap();
    let mut token = Token::new();
    let rule_type = "loot_box".to_string();

    let rule_config_data = query_rule_info(&storage, rule_type.clone()).unwrap();
    let rule_config = rule_config_data.rule_config;

    let mut now = rule_config.lock_start_time + 1000000u64;
    let res = claimable(&storage, now, &rule_type);
    assert_eq!(res.can_claim_amount, rule_config.start_release_amount);
    assert_eq!(res.release_amount, rule_config.start_release_amount);

    // update block to lock end time
    now = rule_config.start_linear_release_time + 1000000u64;
    let per_release_second = rule_config.unlock_linear_release_amount * BASE_RATE_12
        / (rule_config.end_linear_release_time - rule_config.start_linear_release_time) as u128;
    assert_eq!(per_release_second, rule_config.linear_release_per_second);
    let res = claimable(&storage, now, &rule_type);
    let cal_total_release_amount = per_release_second * 1000000u64 as u128 / BASE_RATE_12;
    assert_eq!(res.linear_release_amount, cal_total_release_amount);
    assert_eq!(
        res.can_claim_amount,
        rule_config.start_release_amount + cal_total_release_amount
    );
    let loot_box_owner = Addr::unchecked(LOOT_BOX_OWNER);

    // claim
    let res = claim(&mut storage, now, &creator, rule_type.clone(), None); //error
    assert_eq!(res.as_ref().err().unwrap(), &ContractError::Unauthorized {});
    token.settle(res);
    assert_eq!(token.balance(LOOT_BOX_OWNER), 0u128);

    token.settle(claim(&mut storage, now, &loot_box_owner, rule_type.clone(), None)); //success
    assert_eq!(
        token.balance(LOOT_BOX_OWNER),
        rule_config.start_release_amount + cal_total_release_amount
    );

    let res = claimable(&storage, now, &rule_type);
    assert_eq!(res.can_claim_amount, 0u128);

    // update block to end time
    now = rule_config.start_linear_release_time + 31622400u64;
    let res_end_time = claimable(&storage, now, &rule_type);
    now = rule_config.start_linear_release_time + 31622399u64 + 1000000u64;
    let res_end_time_2 = claimable(&storage, now, &rule_type);
    assert_eq!(res_end_time.can_claim_amount, res_end_time_2.can_claim_amount);
    assert_eq!(res_end_time.release_amount, res_end_time_2.release_amount);
    assert_eq!(res_end_time.linear_release_amount, res_end_time_2.linear_release_amount);

    assert_eq!(
        token.total_supply,
        rule_config.start_release_amount + cal_total_release_amount
    );
}

#[test]
fn distribute_test_instantiate() {
    let mut msg = mock_instantiate_msg(Addr::unchecked(SEILOR_TOKEN));
    let res = mock_instantiate(mock_instantiate_msg(Addr::unchecked(SEILOR_TOKEN)));
    assert!(res.is_ok());

    msg.total_amount = 10000000u128;
    let res = mock_instantiate(msg);
    assert!(res.is_err());
    assert_eq!(
        res.err().unwrap(),
        StdError::generic_err("total_amount must be greater than rule_total_amount")
    );
}

#[test]
fn distribute_test_update_config() {
    let mut storage = mock_instantiate(mock_instantiate_msg(Addr::unchecked(SEILOR_TOKEN))).unwrap();
    let info = Addr::unchecked(CREATOR);

    let new_gov = Some(Addr::unchecked("new_gov"));
    let new_distribute_token = Some(Addr::unchecked("new_distribute_token"));
    let res = update_config(&mut storage, &info, new_gov.clone(), new_distribute_token.clone());
    assert!(res.is_ok());
    let config = query_config(&storage);
    assert_eq!(config.gov, Addr::unchecked("new_gov"));
    assert_eq!(config.distribute_token, Addr::unchecked("new_distribute_token"));

    let other_info = Addr::unchecked("other");
    let res = update_config(&mut storage, &other_info, new_gov, new_distribute_token);
    assert!(res.is_err());
    assert_eq!(res.err().unwrap(), ContractError::Unauthorized {});
}

#[test]
fn test_update_rule_config() {
    let mut storage = mock_instantiate(mock_instantiate_msg(Addr::unchecked(SEILOR_TOKEN))).unwrap();
    let info = Addr::unchecked(CREATOR);

    let update_rule_msg = || UpdateRuleConfigMsg {
        rule_type: "team".to_string(),
        rule_name: Some("new_team_name".to_string()),
        rule_owner: Some(Addr::unchecked("new_rule_owner")),
    };
    let res = update_rule_config(&mut storage, &info, update_rule_msg());
    assert!(res.is_ok());
    let query_data = query_rule_info(&storage, "team".to_string()).unwrap();
    assert_eq!(query_data.rule_config.rule_name, "new_team_name");
    assert_eq!(query_data.rule_config.rule_owner, Addr::unchecked("new_rule_owner"));
    assert_eq!(query_data.rule_config.rule_total_amount, 150000000000000u128);

    let other_info = Addr::unchecked("other");
    let res = update_rule_config(&mut storage, &other_info, update_rule_msg());
    assert!(res.is_err());
    assert_eq!(res.err().unwrap(), ContractError::Unauthorized {});

    // a rule that does not exist
    let res = update_rule_config(
        &mut storage,
        &info,
        UpdateRuleConfigMsg { rule_type: "nope".to_string(), rule_name: None, rule_owner: None },
    );
    assert_eq!(
        res.err().unwrap(),
        ContractError::Std(StdError::not_found("distribute::state::RuleConfig"))
    );
}

fn team_like(name: &str, total: u128) -> RuleConfigMsg {
    RuleConfigMsg {
        rule_name: name.to_string(),
        rule_owner: Addr::unchecked("rule_owner"),
        rule_total_amount: total,
        start_release_amount: 0,
        lock_start_time: 0,
        lock_end_time: 0,
        start_linear_release_time: 0,
        unlock_linear_release_amount: 0,
        unlock_linear_release_time: 1,
    }
}

/// Puts the rule under its type, in place of the rule of that type if there
/// is one, as a map does.
fn insert_rule(rules: &mut Vec<(String, RuleConfigMsg)>, rule_type: &str, rule: RuleConfigMsg) {
    match rules.iter().position(|(key, _)| key == rule_type) {
        Some(i) => rules[i] = (rule_type.to_string(), rule),
        None => rules.push((rule_type.to_string(), rule)),
    }
}

#[test]
fn test_add_rule_config() {
    let mut msg = mock_instantiate_msg(Addr::unchecked(SEILOR_TOKEN));
    insert_rule(&mut msg.rule_configs_map, "team", team_like("team", 100));
    let info = Addr::unchecked(CREATOR);
    let mut storage = mock_instantiate(msg).unwrap();

    let query_data = query_rule_info(&storage, "team".to_string()).unwrap();
    assert_eq!(query_data.rule_config.rule_name, "team".to_string());
    assert_eq!(query_data.rule_config.rule_owner, Addr::unchecked("rule_owner"));
    assert_eq!(query_data.rule_config.rule_total_amount, 100);

    let config = query_config(&storage);
    assert_eq!(config.rules_total_amount, 350000000000100u128);

    let res = add_rule_config(&mut storage, &info, "aaa1".to_string(), team_like("aaa1", 100));
    assert!(res.is_ok());

    let query_data = query_rule_info(&storage, "aaa1".to_string()).unwrap();
    assert_eq!(query_data.rule_config.rule_name, "aaa1".to_string());
    assert_eq!(query_data.rule_config.rule_owner, Addr::unchecked("rule_owner"));
    assert_eq!(query_data.rule_config.rule_total_amount, 100);
    assert_eq!(
        query_data.rule_config_state,
        RuleConfigState {
            is_start_release: false,
            released_amount: 0,
            claimed_amount: 0,
            last_claim_linear_release_time: 0
        }
    );

    let config = query_config(&storage);
    assert_eq!(config.rules_total_amount, 350000000000200u128);

    let msg = mock_instantiate_msg(Addr::unchecked(SEILOR_TOKEN));
    let mut storage = mock_instantiate(msg).unwrap();

    // rule exists
    let res = add_rule_config(&mut storage, &info, "team".to_string(), team_like("team", 100));
    assert!(res.is_err());
    assert_eq!(
        res.err().unwrap(),
        ContractError::Std(StdError::generic_err("rule config already exist",))
    );
    // add zero
    let res = add_rule_config(&mut storage, &info, "aaa1".to_string(), team_like("aaa1", 0));
    assert!(res.is_err());
    assert_eq!(
        res.err().unwrap(),
        ContractError::Std(StdError::generic_err("rule total amount must be greater than zero",))
    );

    // over amount
    let res = add_rule_config(
        &mut storage,
        &info,
        "test".to_string(),
        RuleConfigMsg {
            rule_name: "test".to_string(),
            rule_owner: Addr::unchecked("test_owner"),
            rule_total_amount: 10000000000000u128,
            start_release_amount: 0u128,
            lock_start_time: 1688366468u64,
            lock_end_time: 1688366468u64,
            start_linear_release_time: 1688366468u64,
            unlock_linear_release_amount: 10000000000000u128,
            unlock_linear_release_time: 1719988868,
        },
    );
    assert!(res.is_err());
    assert_eq!(
        res.err().unwrap(),
        ContractError::Std(StdError::generic_err(
            "rule total amount over distribute token amount",
        ))
    );
    // not the governor
    let res = add_rule_config(
        &mut storage,
        &Addr::unchecked("other"),
        "x".to_string(),
        team_like("x", 1),
    );
    assert_eq!(res.err().unwrap(), ContractError::Unauthorized {});
}

#[test]
fn add_rule_config_guards_the_derived_fields() {
    let msg = mock_instantiate_msg(Addr::unchecked(SEILOR_TOKEN));
    let mut storage =
        mock_instantiate(InstantiateMsg { total_amount: u128::MAX, ..msg }).unwrap();
    let info = Addr::unchecked(CREATOR);
    let mut zero_time = team_like("x", 1);
    zero_time.unlock_linear_release_time = 0;
    let res = add_rule_config(&mut storage, &info, "x".to_string(), zero_time);
    assert_eq!(res.err().unwrap(), ContractError::Std(StdError::divide_by_zero()));

    let mut late = team_like("x", 1);
    late.start_linear_release_time = u64::MAX;
    let res = add_rule_config(&mut storage, &info, "x".to_string(), late);
    assert_eq!(
        res.err().unwrap(),
        ContractError::Std(StdError::overflow(OverflowError {
            operation: OverflowOperation::Add
        }))
    );

    let mut big = team_like("x", 1);
    big.unlock_linear_release_amount = u128::MAX / 1000;
    let res = add_rule_config(&mut storage, &info, "x".to_string(), big);
    assert_eq!(
        res.err().unwrap(),
        ContractError::Std(StdError::overflow(OverflowError {
            operation: OverflowOperation::Mul
        }))
    );

    let res = add_rule_config(&mut storage, &info, "x".to_string(), team_like("x", u128::MAX));
    assert_eq!(
        res.err().unwrap(),
        ContractError::OverflowError(OverflowError { operation: OverflowOperation::Add })
    );
    assert!(query_rule_info(&storage, "x".to_string()).is_err());
    assert_eq!(query_config(&storage).rules_total_amount, 500000000000000);
}

const T0: u64 = 1_700_000_000;

fn loot_box_rule() -> vesting_core::distribute::state::RuleConfig {
    derive_rule(&RuleConfigMsg {
        rule_name: "loot_box".to_string(),
        rule_owner: Addr::unchecked(LOOT_BOX_OWNER),
        rule_total_amount: 60_000_000_000_000,
        start_release_amount: 12_000_000_000_000,
        lock_start_time: T0,
        lock_end_time: T0,
        start_linear_release_time: T0,
        unlock_linear_release_amount: 48_000_000_000_000,
        unlock_linear_release_time: 31_622_399,
    })
    .unwrap()
}

fn fresh() -> RuleConfigState {
    RuleConfigState {
        is_start_release: false,
        released_amount: 0,
        claimed_amount: 0,
        last_claim_linear_release_time: 0,
    }
}

#[test]
fn start_linear_lump_then_saturation() {
    let rule = loot_box_rule();
    assert_eq!(rule.end_linear_release_time, T0 + 31_622_399);
    assert_eq!(rule.linear_release_per_second, 48_000_000_000_000 * BASE_RATE_12 / 31_622_399);
    let state = fresh();

    let before = entitled(&rule, &state, T0 - 1).unwrap();
    assert_eq!(before.can_claim_amount, 0);
    assert_eq!(before.release_amount, 0);

    let at_start = entitled(&rule, &state, T0).unwrap();
    assert_eq!(at_start.can_claim_amount, 12_000_000_000_000);
    assert_eq!(at_start.linear_release_amount, 0);

    let after_end = entitled(&rule, &state, rule.end_linear_release_time + 1).unwrap();
    assert_eq!(after_end.can_claim_amount, 60_000_000_000_000);
    assert_eq!(after_end.linear_release_amount, 48_000_000_000_000);
    for later in [2u64, 1000, 31_622_399, 1 << 40] {
        let info = entitled(&rule, &state, rule.end_linear_release_time + later).unwrap();
        assert_eq!(info, after_end);
    }
    let info = entitled(&rule, &state, u64::MAX).unwrap();
    assert_eq!(info.can_claim_amount, 60_000_000_000_000);
}

#[test]
fn linear_release_never_goes_down_and_reaches_the_amount() {
    let rule = loot_box_rule();
    let state = fresh();
    let mut last = 0u128;
    let mut t = T0 - 100;
    while t < rule.end_linear_release_time + 1_000_000 {
        let info = entitled(&rule, &state, t).unwrap();
        assert!(info.linear_release_amount >= last);
        assert!(info.linear_release_amount <= 48_000_000_000_000);
        last = info.linear_release_amount;
        t += 99_991;
    }
    assert_eq!(last, 48_000_000_000_000);
    // one second before the end the rounded rate leaves a little unreleased
    let info = entitled(&rule, &state, rule.end_linear_release_time).unwrap();
    assert_eq!(
        info.linear_release_amount,
        31_622_399u128 * rule.linear_release_per_second / BASE_RATE_12
    );
    assert!(info.linear_release_amount <= 48_000_000_000_000);
}

#[test]
fn entitled_reports_the_step_that_does_not_fit() {
    let rule = loot_box_rule();
    let mut state = fresh();
    state.claimed_amount = rule.rule_total_amount + 1;
    assert_eq!(
        entitled(&rule, &state, T0 + 5).err().unwrap(),
        OverflowError { operation: OverflowOperation::Sub }
    );
    // more claimed than is released so far
    let mut state = fresh();
    state.claimed_amount = 13_000_000_000_000;
    assert_eq!(
        entitled(&rule, &state, T0).err().unwrap(),
        OverflowError { operation: OverflowOperation::Sub }
    );
    // a settlement time ahead of the clock
    let mut state = fresh();
    state.last_claim_linear_release_time = T0 + 100;
    assert_eq!(
        entitled(&rule, &state, T0 + 50).err().unwrap(),
        OverflowError { operation: OverflowOperation::Sub }
    );
    // a rate that overflows when multiplied by the seconds
    let mut fast = loot_box_rule();
    fast.linear_release_per_second = u128::MAX;
    assert_eq!(
        entitled(&fast, &fresh(), T0 + 2).err().unwrap(),
        OverflowError { operation: OverflowOperation::Mul }
    );
    // a lump and a linear amount that do not fit together
    let mut large = loot_box_rule();
    large.rule_total_amount = u128::MAX;
    large.start_release_amount = u128::MAX;
    assert_eq!(
        entitled(&large, &fresh(), u64::MAX).err().unwrap(),
        OverflowError { operation: OverflowOperation::Add }
    );
    // all claimed: nothing, whatever the time
    let mut done = fresh();
    done.claimed_amount = rule.rule_total_amount;
    let info = entitled(&rule, &done, u64::MAX).unwrap();
    assert_eq!(
        info,
        QueryClaimableInfoResponse { can_claim_amount: 0, release_amount: 0, linear_release_amount: 0 }
    );
}

#[test]
fn second_claim_at_same_time_mints_nothing() {
    let mut storage = mock_instantiate(mock_instantiate_msg(Addr::unchecked(SEILOR_TOKEN))).unwrap();
    let owner = Addr::unchecked(LOOT_BOX_OWNER);
    let now = 1696315269u64 + 500;
    let res = claim(&mut storage, now, &owner, "loot_box".to_string(), Some(vec![1, 2, 3])).unwrap();
    assert_eq!(res.messages.len(), 1);
    match &res.messages[0] {
        TokenMsg::Mint { amount, msg, recipient, .. } => {
            assert_eq!(*amount, 12000000000000u128 + 500 * (48000000000000u128 * BASE_RATE_12 / 31622399) / BASE_RATE_12);
            assert_eq!(msg, &Some(vec![1, 2, 3]));
            assert_eq!(recipient, &owner);
        }
        _ => panic!("a mint is expected"),
    }
    let state = query_rule_info(&storage, "loot_box".to_string()).unwrap().rule_config_state;
    assert!(state.is_start_release);
    assert_eq!(state.released_amount, 12000000000000u128);
    assert_eq!(state.last_claim_linear_release_time, 0);
    let res = claim(&mut storage, now, &owner, "loot_box".to_string(), None).unwrap();
    assert_eq!(res.messages.len(), 0);
    let again = query_rule_info(&storage, "loot_box".to_string()).unwrap().rule_config_state;
    assert_eq!(state, again);
}

#[test]
fn claim_errors_in_order() {
    let mut storage = mock_instantiate(mock_instantiate_msg(Addr::unchecked(SEILOR_TOKEN))).unwrap();
    let owner = Addr::unchecked(TEAM_OWNER);
    let res = claim(&mut storage, 0, &owner, "nope".to_string(), None);
    assert_eq!(
        res.err().unwrap(),
        ContractError::Std(StdError::not_found("distribute::state::RuleConfig"))
    );
    let res = claim(&mut storage, 0, &Addr::unchecked("x"), "team".to_string(), None);
    assert_eq!(res.err().unwrap(), ContractError::Unauthorized {});
    let res = claim(&mut storage, 1688366467, &owner, "team".to_string(), None);
    assert_eq!(res.err().unwrap(), ContractError::NotStartClaimTimeError {});
    // after the lock started and before the linear release: nothing to mint
    let res = claim(&mut storage, 1688366468, &owner, "team".to_string(), None).unwrap();
    assert_eq!(res.messages.len(), 0);
    assert!(query_claimable_info(&storage, 0, "nope".to_string()).is_err());
}

#[test]
fn distribute_execute_and_query_dispatch_by_message() {
    let mut storage = mock_instantiate(mock_instantiate_msg(Addr::unchecked(SEILOR_TOKEN))).unwrap();
    let creator = Addr::unchecked(CREATOR);
    let res = execute(
        &mut storage,
        0,
        &creator,
        ExecuteMsg::UpdateRuleConfig {
            update_rule_msg: UpdateRuleConfigMsg {
                rule_type: "mm".to_string(),
                rule_name: None,
                rule_owner: Some(Addr::unchecked("maker")),
            },
        },
    );
    assert!(res.is_ok());
    let res = execute(
        &mut storage,
        1688366468,
        &Addr::unchecked("maker"),
        ExecuteMsg::Claim { rule_type: "mm".to_string(), msg: None },
    )
    .unwrap();
    match &res.messages[0] {
        TokenMsg::Mint { amount, .. } => assert_eq!(*amount, 8000000000000u128),
        _ => panic!("a mint is expected"),
    }
    let res = execute(
        &mut storage,
        0,
        &creator,
        ExecuteMsg::UpdateConfig { gov: Some(Addr::unchecked("g")), distribute_token: None },
    );
    assert!(res.is_ok());
    let res = execute(
        &mut storage,
        0,
        &creator,
        ExecuteMsg::AddRuleConfig { rule_type: "n".to_string(), rule_msg: team_like("n", 1) },
    );
    assert_eq!(res.err().unwrap(), ContractError::Unauthorized {});
    match query(&storage, 0, QueryMsg::QueryConfig {}).unwrap() {
        QueryResponse::Config(c) => assert_eq!(c.gov, Addr::unchecked("g")),
        other => panic!("unexpected answer {:?}", other),
    }
    match query(&storage, 1688366468, QueryMsg::QueryClaimableInfo { rule_type: "mm".to_string() })
        .unwrap()
    {
        QueryResponse::ClaimableInfo(c) => assert_eq!(c.can_claim_amount, 0),
        other => panic!("unexpected answer {:?}", other),
    }
    match query(&storage, 0, QueryMsg::QueryRuleInfo { rule_type: "mm".to_string() }).unwrap() {
        QueryResponse::RuleInfo(r) => assert_eq!(r.rule_config_state.claimed_amount, 8000000000000),
        other => panic!("unexpected answer {:?}", other),
    }
}
