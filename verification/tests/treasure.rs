use std::collections::{BTreeMap, HashSet};

use vesting_core::addr::Addr;
use vesting_core::errors::{OverflowError, OverflowOperation, StdError};
use vesting_core::response::{Response, TokenMsg};
use vesting_core::treasure::contract::{execute, instantiate, query};
use vesting_core::treasure::error::ContractError;
use vesting_core::treasure::handler::{
    pre_mint_nft, receive_cw20, update_config, user_lock_hook, user_withdraw,
};
use vesting_core::treasure::msg::{
    Cw20HookMsg, Cw20ReceiveMsg, ExecuteMsg, InstantiateMsg, QueryMsg, QueryResponse,
    QueryUserInfosMsg, TreasureConfigMsg, UserInfosResponse,
};
use vesting_core::treasure::querier::{query_config_infos, query_user_infos};
use vesting_core::treasure::random_rules::{
    _cal_random_number, _get_random_seed, get_winning, is_winning, random_number_of, Env,
};
use vesting_core::treasure::state::{
    generate_next_record_id, read_user_lock_records, read_user_withdraw_records, Storage,
};

const CREATOR: &str = "creator";
const LOCK_TOKEN: &str = "lock_token";
const PUNISH_RECEIVER: &str = "punish_receiver";
const TREASURE: &str = "treasure_contact";

fn mock_instantiate_msg(lock_token: Addr) -> InstantiateMsg {
    let winning_num: HashSet<u64> = (0..25).collect();
    InstantiateMsg {
        gov: None,
        lock_token,
        start_time: 1688128677,
        end_time: 1690720710,
        integral_reward_coefficient: 10u128,
        lock_duration: 86400 * 30,
        punish_coefficient: 300000u128,
        mint_nft_cost_integral: 1_000_000u128 * 10_000u128,
        winning_num,
        mod_num: 100,
        punish_receiver: Addr::unchecked(PUNISH_RECEIVER),
    }
}

fn mock_instantiate(msg: InstantiateMsg) -> Storage {
    instantiate(&Addr::unchecked(CREATOR), msg)
}

fn env_at(seconds: u64, height: u64) -> Env {
    Env {
        block_time_nanos: seconds * 1_000_000_000,
        block_height: height,
        transaction_index: Some(0),
    }
}

/// The token ledger: balances, and a send to the treasure that only goes
/// through where the treasure takes the tokens in.
struct Bank {
    balances: BTreeMap<String, u128>,
}

impl Bank {
    fn balance(&self, who: &str) -> u128 {
        *self.balances.get(who).unwrap_or(&0)
    }

    fn transfer(&mut self, from: &str, to: &str, amount: u128) -> Result<(), String> {
        if amount == 0 {
            return Err("Invalid zero amount".to_string());
        }
        if self.balance(from) < amount {
            return Err("Overflow".to_string());
        }
        *self.balances.entry(from.to_string()).or_insert(0) -= amount;
        *self.balances.entry(to.to_string()).or_insert(0) += amount;
        Ok(())
    }

    fn user_lock(
        &mut self,
        storage: &mut Storage,
        now: u64,
        user: &str,
        amount: u128,
    ) -> Result<(), String> {
        if amount == 0 {
            return Err("Invalid zero amount".to_string());
        }
        if self.balance(user) < amount {
            return Err("Overflow".to_string());
        }
        let msg = Cw20ReceiveMsg {
            sender: Addr::unchecked(user),
            amount,
            msg: Some(Cw20HookMsg::UserLockHook {}),
        };
        receive_cw20(storage, now, &Addr::unchecked(LOCK_TOKEN), msg)
            .map_err(|e| format!("{:?}", e))?;
        self.transfer(user, TREASURE, amount)
    }

    fn settle(&mut self, res: Result<Response, ContractError>) -> Result<(), String> {
        let response = res.map_err(|e| format!("{:?}", e))?;
        for msg in response.messages {
            match msg {
                TokenMsg::Transfer { contract_addr, recipient, amount } => {
                    assert_eq!(contract_addr, Addr::unchecked(LOCK_TOKEN));
                    self.transfer(TREASURE, recipient.as_str(), amount)?;
                }
                TokenMsg::Mint { .. } => panic!("the treasure mints nothing"),
            }
        }
        Ok(())
    }
}

fn all_of(storage: &Storage, user: &str) -> UserInfosResponse {
    query_user_infos(
        storage,
        QueryUserInfosMsg {
            user_addr: Addr::unchecked(user),
            query_user_state: true,
            query_lock_records: true,
            query_withdraw_records: true,
            query_mint_nft_records: true,
            start_after: None,
            limit: None,
        },
    )
}

#[test]
fn treasure_test_integration() {
    let tom_address = Addr::unchecked("tom");
    let mut storage = mock_instantiate(mock_instantiate_msg(Addr::unchecked(LOCK_TOKEN)));
    let mut bank = Bank { balances: BTreeMap::new() };
    let mut now = 1688128676u64;
    let mut height = 12_345u64;

    // tom lock 0 token
    let res = bank.user_lock(&mut storage, now, "tom", 0);
    assert!(res.is_err());
    assert_eq!(bank.balance("tom"), 0);

    let transfer_amount = 10_000_000_000_000u128;
    bank.balances.insert("tom".to_string(), transfer_amount);
    assert_eq!(bank.balance("tom"), transfer_amount);

    let tom_lock_amount = 100_000_000u128;
    // tom lock 100_000_000 token not start time
    let res = bank.user_lock(&mut storage, now, "tom", tom_lock_amount);
    assert!(res.is_err());

    now = 1688128677 + 1000u64;
    height += 1000000u64;

    let res = bank.user_lock(&mut storage, now, "tom", tom_lock_amount);
    assert!(res.is_ok());
    assert_eq!(bank.balance("tom"), transfer_amount - tom_lock_amount);
    assert_eq!(bank.balance(TREASURE), tom_lock_amount);

    // tom mint nft error,not enough locked token
    let res = pre_mint_nft(&mut storage, &env_at(now, height), &tom_address, 1);
    assert_eq!(res.err().unwrap(), ContractError::InsufficientIntegralFunds {});

    let tom_lock_2_amount = 9_000_000_000u128;
    let res = bank.user_lock(&mut storage, now, "tom", tom_lock_2_amount);
    assert!(res.is_ok());

    // tome mint nft success
    let res = pre_mint_nft(&mut storage, &env_at(now, height), &tom_address, 1);
    println!("pre_mint_nft success: {:?}", res);
    assert!(res.is_ok());

    assert_eq!(bank.balance("tom"), transfer_amount - tom_lock_amount - tom_lock_2_amount);
    assert_eq!(bank.balance(TREASURE), tom_lock_amount + tom_lock_2_amount);

    // check global info
    let global_info = query_config_infos(&storage);
    assert_eq!(global_info.state.total_locked_amount, tom_lock_amount + tom_lock_2_amount);
    assert_eq!(
        global_info.state.current_integral_amount,
        global_info.config.integral_reward_coefficient * (tom_lock_amount + tom_lock_2_amount)
            - global_info.config.mint_nft_cost_integral * 1
    );
    assert_eq!(global_info.state.current_locked_amount, tom_lock_amount + tom_lock_2_amount);
    assert_eq!(global_info.state.total_lose_nft_num, 1u64);
    assert_eq!(global_info.state.total_win_nft_num, 0u64);
    assert_eq!(global_info.state.total_withdraw_amount, 0);
    assert_eq!(global_info.state.total_punish_amount, 0);

    //check tom state
    let tom_state = all_of(&storage, "tom");
    let user_state = tom_state.user_state.unwrap();
    let lock_records = tom_state.lock_records.unwrap();
    let withdraw_records = tom_state.withdraw_records.unwrap();
    let mint_nft_records = tom_state.mint_nft_records.unwrap();
    assert_eq!(user_state.current_locked_amount, tom_lock_amount + tom_lock_2_amount);
    assert_eq!(
        user_state.current_integral_amount,
        global_info.config.integral_reward_coefficient * (tom_lock_amount + tom_lock_2_amount)
            - global_info.config.mint_nft_cost_integral * 1
    );
    assert_eq!(user_state.total_locked_amount, tom_lock_amount + tom_lock_2_amount);
    assert_eq!(user_state.total_cost_integral_amount, global_info.config.mint_nft_cost_integral * 1);
    assert_eq!(user_state.total_withdraw_amount, 0);
    assert_eq!(user_state.win_nft_num, 0u64);
    assert_eq!(user_state.lose_nft_num, 1u64);
    assert_eq!(user_state.start_lock_time, 1688128677 + 1000u64);
    assert_eq!(
        user_state.end_lock_time,
        1688128677 + 1000u64 + global_info.config.lock_duration
    );

    assert_eq!(lock_records.len(), 2);
    assert_eq!(withdraw_records.len(), 0);
    assert_eq!(mint_nft_records.len(), 1);
    // the latest record comes first
    assert_eq!(lock_records[0].record_id, 2);
    assert_eq!(lock_records[0].lock_amount, tom_lock_2_amount);
    assert_eq!(lock_records[1].record_id, 1);
    assert_eq!(mint_nft_records[0].record_id, 4);
    assert_eq!(mint_nft_records[0].win_nft_num, 0);
    assert_eq!(mint_nft_records[0].mint_time, now);

    // tom withdraw 1_000_000_000 token
    let tom_withdraw_amount = 1_000_000_000u128;
    let res = bank.settle(user_withdraw(&mut storage, now, &tom_address, tom_withdraw_amount));
    assert!(res.is_ok());

    assert_eq!(
        bank.balance(TREASURE),
        tom_lock_amount + tom_lock_2_amount - tom_withdraw_amount
    );
    let punish_receiver_balance = bank.balance(PUNISH_RECEIVER);
    println!("punish_receiver_balance: {:?}", punish_receiver_balance);
    assert_eq!(
        punish_receiver_balance,
        tom_withdraw_amount * global_info.config.punish_coefficient / 1_000_000u128
    );
    assert_eq!(punish_receiver_balance, 300_000_000);
    assert_eq!(
        bank.balance("tom"),
        transfer_amount - tom_lock_amount - tom_lock_2_amount + tom_withdraw_amount
            - punish_receiver_balance
    );

    // end lock time
    now = 1690720710 + 1000u64;

    let res = bank.user_lock(&mut storage, now, "tom", tom_lock_amount);
    assert!(res.is_err());

    let tom_withdraw_amount_2 = 1_000_000_000u128;
    let res = bank.settle(user_withdraw(&mut storage, now, &tom_address, tom_withdraw_amount_2));
    assert!(res.is_ok());

    assert_eq!(
        bank.balance("tom"),
        transfer_amount - tom_lock_amount - tom_lock_2_amount + tom_withdraw_amount
            - punish_receiver_balance
            + tom_withdraw_amount_2
    );
    let records = read_user_withdraw_records(&storage, &tom_address, None, None);
    assert_eq!(records.len(), 2);
    assert_eq!(records[0].punish_amount, 0);
    assert_eq!(records[0].withdraw_amount, 1_000_000_000);
    assert_eq!(records[1].punish_amount, 300_000_000);
    assert_eq!(records[1].withdraw_amount, 700_000_000);
}

#[test]
fn treasure_test_instantiate() {
    let storage = mock_instantiate(mock_instantiate_msg(Addr::unchecked(LOCK_TOKEN)));
    let infos = query_config_infos(&storage);
    assert_eq!(infos.config.gov, Addr::unchecked(CREATOR));
    assert_eq!(infos.config.mod_num, 100);
    assert_eq!(infos.state.total_locked_amount, 0);
    assert_eq!(infos.config.winning_num, (0..25).collect::<HashSet<u64>>());
}

#[test]
fn treasure_test_update_config() {
    let mut storage = mock_instantiate(mock_instantiate_msg(Addr::unchecked(LOCK_TOKEN)));
    let info = Addr::unchecked(CREATOR);
    let new_winning_num: HashSet<u64> = (75..100).collect();
    let msg = || TreasureConfigMsg {
        gov: Option::from(Addr::unchecked("new_gov")),
        lock_token: Option::from(Addr::unchecked("new_lock_token")),
        start_time: Option::from(11111),
        end_time: Option::from(11112),
        integral_reward_coefficient: Option::from(11113u128),
        lock_duration: Option::from(11114u64),
        punish_coefficient: Option::from(11115u128),
        mint_nft_cost_integral: Option::from(11116u128),
        winning_num: Option::from((75..100).collect::<HashSet<u64>>()),
        mod_num: Option::from(11117u64),
        punish_receiver: Option::from(Addr::unchecked("new_punish_receiver")),
    };
    update_config(&mut storage, &info, msg()).unwrap();

    let new_config = query_config_infos(&storage);
    assert_eq!(new_config.config.gov, Addr::unchecked("new_gov"));
    assert_eq!(new_config.config.lock_token, Addr::unchecked("new_lock_token"));
    assert_eq!(new_config.config.start_time, 11111);
    assert_eq!(new_config.config.end_time, 11112);
    assert_eq!(new_config.config.integral_reward_coefficient, 11113u128);
    assert_eq!(new_config.config.lock_duration, 11114u64);
    assert_eq!(new_config.config.punish_coefficient, 11115u128);
    assert_eq!(new_config.config.mint_nft_cost_integral, 11116u128);
    assert_eq!(new_config.config.winning_num, new_winning_num);
    assert_eq!(new_config.config.mod_num, 11117u64);
    assert_eq!(new_config.config.punish_receiver, Addr::unchecked("new_punish_receiver"));

    // the old governor is no longer allowed
    let res = update_config(&mut storage, &info, msg());
    assert_eq!(res.err().unwrap(), ContractError::Unauthorized {});
}

#[test]
fn test_cal_random_number() {
    let env = Env {
        block_time_nanos: 1_571_797_419_879_305_533,
        block_height: 12_345,
        transaction_index: Some(3),
    };
    let res = get_winning(
        &env,
        "test2".to_string(),
        vec!["0".to_string()],
        &vec![
            0, 1, 2, 3, 4, 5, 6, 7, 8, 9, 10, 11, 12, 13, 14, 15, 16, 17, 18, 19, 20, 21, 22,
            23, 24,
        ]
        .into_iter()
        .collect(),
        100,
    );
    println!("res:{:?}", res);
    assert!(res.is_ok());
    // the same draw gives the same answer
    let again = get_winning(
        &env,
        "test2".to_string(),
        vec!["0".to_string()],
        &(0..25).collect(),
        100,
    );
    assert_eq!(res, again);
}

#[test]
fn random_seed_joins_the_factors_with_commas() {
    let env = Env {
        block_time_nanos: 1_571_797_419_879_305_533,
        block_height: 12_345,
        transaction_index: Some(3),
    };
    // 1571797419 % 62 == 17, and the character at 17 is 'I'
    assert_eq!(1_571_797_419u64 % 62, 17);
    let seed = _get_random_seed(&env, "test2".to_string(), vec!["0".to_string()]);
    assert_eq!(seed, "0,I,test2,1571797419879305533,12345,3");
    let seed = _get_random_seed(
        &Env { block_time_nanos: 0, block_height: 0, transaction_index: None },
        "u".to_string(),
        vec![],
    );
    assert_eq!(seed, "2,u,0,0,0");
    let seed = _get_random_seed(
        &Env {
            block_time_nanos: u64::MAX,
            block_height: 10,
            transaction_index: Some(u32::MAX),
        },
        "".to_string(),
        vec!["a".to_string(), "".to_string(), "b,c".to_string()],
    );
    // 18446744073 % 62 == 13, and the character at 13 is 'Q'
    assert!(seed.starts_with("a,,b,c,Q,"));
    assert!(seed.ends_with(",,18446744073709551615,10,4294967295"));
}

#[test]
fn random_number_is_read_from_the_digest() {
    // SHA-256 of "abc" is ba7816bf...f20015ad
    assert_eq!(_cal_random_number("abc"), Ok(0xba7816 + 0x0015ad));
    assert_eq!(_cal_random_number("abc"), Ok(12_225_987));
    // SHA-256 of the empty text is e3b0c442...7852b855
    assert_eq!(_cal_random_number(""), Ok(0xe3b0c4 + 0x52b855));
    assert_eq!(
        random_number_of("000001zzzzzzzzzzzzzzzz00000f"),
        Ok(16)
    );
    assert_eq!(random_number_of("ffffff"), Ok(2 * 0xffffff));
    assert_eq!(random_number_of("ABCDEFabcdef"), Ok(2 * 0xabcdef));
    assert_eq!(random_number_of("12345"), Err(ContractError::ParseInt {}));
    assert_eq!(random_number_of("12345g7"), Err(ContractError::ParseInt {}));
    assert_eq!(random_number_of("+12345"), Err(ContractError::ParseInt {}));
    assert_eq!(random_number_of("12345é"), Err(ContractError::ParseInt {}));
}

#[test]
fn winning_is_the_remainder_among_the_winning_numbers() {
    let winning: HashSet<u64> = (0..25).collect();
    assert_eq!(is_winning(124, &winning, 100), Ok(true));
    assert_eq!(is_winning(125, &winning, 100), Ok(false));
    assert_eq!(is_winning(100, &winning, 100), Ok(true));
    assert_eq!(is_winning(99, &winning, 100), Ok(false));
    assert_eq!(
        is_winning(5, &winning, 0),
        Err(ContractError::Std(StdError::divide_by_zero()))
    );
    // the draw for "abc"-like seeds follows from the digest
    let n = _cal_random_number("abc").unwrap();
    assert_eq!(is_winning(n, &winning, 100), Ok(n % 100 < 25));
}

#[test]
fn draws_count_wins_and_losses() {
    let mut msg = mock_instantiate_msg(Addr::unchecked(LOCK_TOKEN));
    msg.mint_nft_cost_integral = 10;
    let mut storage = mock_instantiate(msg);
    let tom = Addr::unchecked("tom");
    user_lock_hook(&mut storage, 1688128677, &tom, 1_000).unwrap();
    let env = env_at(1688128677, 77);
    // what each draw comes to, worked out one by one
    let mut wins = 0;
    for i in 0..40u64 {
        let won = get_winning(&env, (2 + i).to_string(), vec![], &(0..25).collect(), 100).unwrap();
        if won {
            wins += 1;
        }
    }
    pre_mint_nft(&mut storage, &env, &tom, 40).unwrap();
    let state = all_of(&storage, "tom").user_state.unwrap();
    assert_eq!(state.win_nft_num, wins);
    assert_eq!(state.lose_nft_num, 40 - wins);
    assert_eq!(state.current_integral_amount, 10_000 - 400);
    assert_eq!(state.total_cost_integral_amount, 400);
    let totals = query_config_infos(&storage).state;
    assert_eq!(totals.total_win_nft_num, wins);
    assert_eq!(totals.total_lose_nft_num, 40 - wins);
    assert_eq!(totals.current_integral_amount, 10_000 - 400);
    // two numbers are used up: one for the draws, one for the record
    assert_eq!(generate_next_record_id(&mut storage), Ok(4));

    assert_eq!(
        pre_mint_nft(&mut storage, &env, &tom, 0).err().unwrap(),
        ContractError::InvalidMintNum {}
    );
    assert_eq!(
        pre_mint_nft(&mut storage, &env, &tom, 961).err().unwrap(),
        ContractError::InsufficientIntegralFunds {}
    );
    assert_eq!(
        pre_mint_nft(&mut storage, &env, &tom, u64::MAX).err().unwrap(),
        ContractError::InsufficientIntegralFunds {}
    );
}

#[test]
fn lock_and_withdraw_errors() {
    let mut storage = mock_instantiate(mock_instantiate_msg(Addr::unchecked(LOCK_TOKEN)));
    let tom = Addr::unchecked("tom");
    assert_eq!(
        user_lock_hook(&mut storage, 1688128676, &tom, 5).err().unwrap(),
        ContractError::TreasureNotStart {}
    );
    assert_eq!(
        user_lock_hook(&mut storage, 1690720711, &tom, 5).err().unwrap(),
        ContractError::TreasureEnd {}
    );
    assert_eq!(
        user_lock_hook(&mut storage, 1690720710, &tom, u128::MAX).err().unwrap(),
        ContractError::OverflowError(OverflowError { operation: OverflowOperation::Mul })
    );
    user_lock_hook(&mut storage, 1690720710, &tom, 5).unwrap();
    assert_eq!(
        user_withdraw(&mut storage, 1690720710, &tom, 6).err().unwrap(),
        ContractError::InsufficientLockFunds {}
    );
    // tokens from another ledger, and a message that cannot be read
    let hook = |msg| Cw20ReceiveMsg { sender: Addr::unchecked("tom"), amount: 5, msg };
    assert_eq!(
        receive_cw20(
            &mut storage,
            1690720710,
            &Addr::unchecked("other"),
            hook(Some(Cw20HookMsg::UserLockHook {}))
        )
        .err()
        .unwrap(),
        ContractError::InvalidLockToken {}
    );
    assert_eq!(
        receive_cw20(&mut storage, 1690720710, &Addr::unchecked(LOCK_TOKEN), hook(None))
            .err()
            .unwrap(),
        ContractError::InvalidCw20HookMsg {}
    );
    // a penalty of more than the whole
    update_config(
        &mut storage,
        &Addr::unchecked(CREATOR),
        TreasureConfigMsg {
            gov: None,
            lock_token: None,
            start_time: None,
            end_time: None,
            integral_reward_coefficient: None,
            lock_duration: None,
            punish_coefficient: Some(1_000_001),
            mint_nft_cost_integral: None,
            winning_num: None,
            mod_num: None,
            punish_receiver: None,
        },
    )
    .unwrap();
    assert_eq!(
        user_withdraw(&mut storage, 1690720710, &tom, 5).unwrap().messages.len(),
        2
    );
    user_lock_hook(&mut storage, 1690720710, &tom, 5_000_000).unwrap();
    assert_eq!(
        user_withdraw(&mut storage, 1690720710, &tom, 5_000_000).err().unwrap(),
        ContractError::OverflowError(OverflowError { operation: OverflowOperation::Sub })
    );
    assert_eq!(all_of(&storage, "tom").user_state.unwrap().current_locked_amount, 5_000_000);
}

#[test]
fn record_pages_run_from_the_latest_back() {
    let mut storage = mock_instantiate(mock_instantiate_msg(Addr::unchecked(LOCK_TOKEN)));
    let tom = Addr::unchecked("tom");
    let bob = Addr::unchecked("bob");
    for i in 0..40u128 {
        user_lock_hook(&mut storage, 1688128677, &tom, 100 + i).unwrap();
        if i % 4 == 0 {
            user_lock_hook(&mut storage, 1688128677, &bob, 7).unwrap();
        }
    }
    let ids = |records: Vec<vesting_core::treasure::state::UserLockRecord>| -> Vec<u64> {
        records.iter().map(|r| r.record_id).collect()
    };
    let page = read_user_lock_records(&storage, &tom, None, None);
    assert_eq!(ids(page), vec![50, 49, 48, 46, 45, 44, 43, 41, 40, 39]);
    assert_eq!(read_user_lock_records(&storage, &tom, None, Some(100)).len(), 30);
    assert_eq!(ids(read_user_lock_records(&storage, &tom, None, Some(0))), vec![50]);
    assert_eq!(ids(read_user_lock_records(&storage, &bob, None, Some(3))), vec![47, 42, 37]);
    assert_eq!(read_user_lock_records(&storage, &Addr::unchecked("x"), None, None).len(), 0);
    // a start cuts off the records whose keys come before it
    let all = read_user_lock_records(&storage, &tom, Some("".to_string()), Some(30));
    assert_eq!(all.len(), 30);
    let none = read_user_lock_records(&storage, &tom, Some("a".to_string()), Some(30));
    assert_eq!(none.len(), 0);
}

#[test]
fn treasure_execute_and_query_dispatch_by_message() {
    let mut storage = mock_instantiate(mock_instantiate_msg(Addr::unchecked(LOCK_TOKEN)));
    let env = env_at(1688128677, 5);
    let res = execute(
        &mut storage,
        &env,
        &Addr::unchecked(LOCK_TOKEN),
        ExecuteMsg::Receive(Cw20ReceiveMsg {
            sender: Addr::unchecked("tom"),
            amount: 2_000_000_000,
            msg: Some(Cw20HookMsg::UserLockHook {}),
        }),
    );
    assert!(res.is_ok());
    let res = execute(
        &mut storage,
        &env,
        &Addr::unchecked("tom"),
        ExecuteMsg::PreMintNft { mint_num: 2 },
    );
    assert!(res.is_ok());
    let res = execute(
        &mut storage,
        &env,
        &Addr::unchecked("tom"),
        ExecuteMsg::UserWithdraw { amount: 1_000_000 },
    )
    .unwrap();
    assert_eq!(res.messages.len(), 2);
    match query(&storage, QueryMsg::QueryConfigInfos {}) {
        QueryResponse::ConfigInfos(c) => {
            assert_eq!(c.state.current_locked_amount, 1_999_000_000);
            assert_eq!(c.state.total_win_nft_num + c.state.total_lose_nft_num, 2);
        }
        other => panic!("unexpected answer {:?}", other),
    }
}

#[test]
fn record_pages_keep_the_order_of_the_numbers_beyond_one_byte() {
    let mut storage = mock_instantiate(mock_instantiate_msg(Addr::unchecked(LOCK_TOKEN)));
    let tom = Addr::unchecked("tom");
    for _ in 0..600u128 {
        user_lock_hook(&mut storage, 1688128677, &tom, 1).unwrap();
    }
    let page = read_user_lock_records(&storage, &tom, None, Some(30));
    let ids: Vec<u64> = page.iter().map(|r| r.record_id).collect();
    let want: Vec<u64> = (571..=600).rev().collect();
    assert_eq!(ids, want);
}

#[test]
fn record_pages_start_after_the_key_that_is_named() {
    let mut storage = mock_instantiate(mock_instantiate_msg(Addr::unchecked(LOCK_TOKEN)));
    let tom = Addr::unchecked("tom");
    for _ in 0..6u128 {
        user_lock_hook(&mut storage, 1688128677, &tom, 1).unwrap();
    }
    // the key of record 3, as a text
    let key = "\0\0\0\0\0\0\0\u{3}".to_string();
    let page = read_user_lock_records(&storage, &tom, Some(key), Some(30));
    let ids: Vec<u64> = page.iter().map(|r| r.record_id).collect();
    assert_eq!(ids, vec![6, 5, 4]);
}

#[test]
fn record_key_is_the_number_in_big_endian_bytes() {
    assert_eq!(
        vesting_core::treasure::state::record_key_bytes(0x0102_0304_0506_0708),
        vec![1u8, 2, 3, 4, 5, 6, 7, 8]
    );
    assert_eq!(
        vesting_core::treasure::state::record_key_bytes(1),
        vec![0u8, 0, 0, 0, 0, 0, 0, 1]
    );
    assert_eq!(vesting_core::treasure::state::record_key_bytes(0), vec![0u8; 8]);
    assert_eq!(vesting_core::treasure::state::record_key_bytes(u64::MAX), vec![255u8; 8]);
    for id in [255u64, 256, 65_535, 65_536, 1 << 56, (1 << 56) - 1, 1_688_828_677] {
        assert_eq!(
            vesting_core::treasure::state::record_key_bytes(id),
            id.to_be_bytes().to_vec()
        );
    }
}
