use vesting_core::ve_kpt::state::Checkpoint;
use vesting_core::ve_kpt::ve_querier::_check_points_lookup;

#[test]
fn test_check_points_lookup() {
    // Positive test case
    let check_points = vec![
        Checkpoint { from_block: 0, votes: 100 },
        Checkpoint { from_block: 100, votes: 200 },
        Checkpoint { from_block: 200, votes: 300 },
        Checkpoint { from_block: 300, votes: 400 },
    ];
    let pos = check_points.len();
    let s: usize = 1usize;
    println!("check_points: {:?}", check_points[pos - s]);
    assert_eq!(_check_points_lookup(check_points.clone(), 50), 100);
    assert_eq!(_check_points_lookup(check_points.clone(), 150), 200);
    assert_eq!(_check_points_lookup(check_points.clone(), 250), 300);
    assert_eq!(_check_points_lookup(check_points.clone(), 350), 400);
}

#[test]
fn check_points_lookup_long_list_uses_square_root_probe() {
    let mut check_points = Vec::new();
    for i in 0..100u64 {
        check_points.push(Checkpoint { from_block: 10 * i + 5, votes: (i + 1) as u128 });
    }
    assert_eq!(_check_points_lookup(check_points.clone(), 0), 0);
    assert_eq!(_check_points_lookup(check_points.clone(), 4), 0);
    assert_eq!(_check_points_lookup(check_points.clone(), 5), 1);
    assert_eq!(_check_points_lookup(check_points.clone(), 14), 1);
    assert_eq!(_check_points_lookup(check_points.clone(), 15), 2);
    assert_eq!(_check_points_lookup(check_points.clone(), 904), 90);
    assert_eq!(_check_points_lookup(check_points.clone(), 905), 91);
    assert_eq!(_check_points_lookup(check_points.clone(), 994), 99);
    assert_eq!(_check_points_lookup(check_points.clone(), 995), 100);
    assert_eq!(_check_points_lookup(check_points.clone(), u64::MAX), 100);
    for i in 0..100u64 {
        assert_eq!(_check_points_lookup(check_points.clone(), 10 * i + 5), (i + 1) as u128);
    }
}

#[test]
fn check_points_lookup_empty_list_is_zero() {
    assert_eq!(_check_points_lookup(Vec::new(), 7), 0);
}

use std::collections::BTreeMap;
use vesting_core::addr::Addr;
use vesting_core::errors::{OverflowError, OverflowOperation, StdError};
use vesting_core::token::{Cw20Coin, Cw20InstantiateMsg, InstantiateMarketingInfo, MinterResponse};
use vesting_core::ve_kpt::contract::{execute, instantiate, query, Action};
use vesting_core::ve_kpt::error::ContractError;
use vesting_core::ve_kpt::handler::{burn, mint, FundOrder};
use vesting_core::ve_kpt::msg::{
    ExecuteMsg, GetVotesResponse, InstantiateMsg, IsMinterResponse, KptFundMsg,
    NumCheckpointsResponse, QueryMsg, QueryResponse, VoteConfigResponse,
};
use vesting_core::ve_kpt::querier::{query_is_minter, query_vote_config};
use vesting_core::ve_kpt::state::Storage;
use vesting_core::ve_kpt::ve_handler::{
    _add, _subtract, _write_checkpoint, ve_burn, ve_mint, WeightOp,
};
use vesting_core::ve_kpt::ve_querier::{
    checkpoints, get_past_total_supply, get_past_votes, get_votes, num_checkpoints,
};

const CONTRACT: &str = "cosmos2contract";
const HEIGHT: u64 = 12_345;

fn mock_cw20_marketing_init_msg() -> InstantiateMarketingInfo {
    InstantiateMarketingInfo {
        project: Option::from("Test Project".to_string()),
        description: Option::from("Test Description".to_string()),
        logo: None,
        marketing: None,
    }
}

fn mock_cw20_init_msg() -> Cw20InstantiateMsg {
    Cw20InstantiateMsg {
        name: "Test Token".to_string(),
        symbol: "TEST".to_string(),
        decimals: 6,
        initial_balances: vec![],
        mint: None,
        marketing: Some(mock_cw20_marketing_init_msg()),
    }
}

fn default_instantiate(max_supply: u128, max_minted: u128) -> InstantiateMsg {
    InstantiateMsg { cw20_init_msg: mock_cw20_init_msg(), max_supply, gov: None, max_minted }
}

/// The token ledger under the vote token, as far as minting and burning go:
/// it refuses an amount of zero, a supply above the cap, and a burn of more
/// than the balance.
struct Ledger {
    balances: BTreeMap<String, u128>,
    total_supply: u128,
    cap: Option<u128>,
}

impl Ledger {
    fn new(msg: &Cw20InstantiateMsg) -> Ledger {
        Ledger {
            balances: BTreeMap::new(),
            total_supply: 0,
            cap: msg.mint.as_ref().and_then(|m| m.cap),
        }
    }

    fn balance(&self, who: &str) -> u128 {
        *self.balances.get(who).unwrap_or(&0)
    }

    fn mint(&mut self, to: &str, amount: u128) -> Result<(), ContractError> {
        if amount == 0 {
            return Err(ContractError::Std(StdError::generic_err("Invalid zero amount")));
        }
        if let Some(cap) = self.cap {
            if self.total_supply + amount > cap {
                return Err(ContractError::Std(StdError::generic_err("Minting cannot exceed the cap")));
            }
        }
        *self.balances.entry(to.to_string()).or_insert(0) += amount;
        self.total_supply += amount;
        Ok(())
    }

    fn burn(&mut self, from: &str, amount: u128) -> Result<(), ContractError> {
        if amount == 0 {
            return Err(ContractError::Std(StdError::generic_err("Invalid zero amount")));
        }
        if self.balance(from) < amount {
            return Err(ContractError::Std(StdError::generic_err("Overflow")));
        }
        *self.balances.entry(from.to_string()).or_insert(0) -= amount;
        self.total_supply -= amount;
        Ok(())
    }
}

/// Runs an operation as the chain does: the decision, then the ledger, then
/// the votes. Hands back the number of messages that are sent on.
fn run(
    storage: &mut Storage,
    ledger: &mut Ledger,
    sender: &str,
    msg: ExecuteMsg,
) -> Result<usize, ContractError> {
    match execute(storage, &Addr::unchecked(sender), msg)? {
        Action::Done => Ok(0),
        Action::Mint(order) => {
            ledger.mint(order.recipient.as_str(), order.amount)?;
            ve_mint(storage, HEIGHT, &order.recipient, order.amount, ledger.total_supply)
                .map_err(ContractError::Std)?;
            Ok(order.refresh_reward.iter().count())
        }
        Action::Burn(order) => {
            ledger.burn(order.owner.as_str(), order.amount)?;
            ve_burn(storage, HEIGHT, &order.owner, order.amount).map_err(ContractError::Std)?;
            Ok(order.refresh_reward.iter().count())
        }
        Action::UpdateMarketing { .. } | Action::UploadLogo(_) => Ok(0),
    }
}

fn start(max_supply: u128, max_minted: u128) -> (Storage, Ledger) {
    let (storage, cw20) = instantiate(
        &Addr::unchecked(CONTRACT),
        &Addr::unchecked("creator"),
        default_instantiate(max_supply, max_minted),
    )
    .unwrap();
    let ledger = Ledger::new(&cw20);
    (storage, ledger)
}

#[test]
fn ve_kpt_test_instantiate() {
    let max_supply = 1000000u128;
    let max_minted = 500000u128;

    let _msg = InstantiateMsg {
        cw20_init_msg: mock_cw20_init_msg(),
        gov: Some(Addr::unchecked("gov")),
        max_supply,
        max_minted,
    };
    let (storage, cw20) =
        instantiate(&Addr::unchecked(CONTRACT), &Addr::unchecked("creator"), _msg).unwrap();

    assert_eq!(
        query_vote_config(&storage),
        VoteConfigResponse {
            max_supply,
            gov: Addr::unchecked("gov"),
            kpt_fund: Addr::unchecked(""),
            max_minted,
            total_minted: 0,
        }
    );
    // the ledger is prepared with the contract as minter and the governor for marketing
    assert_eq!(
        cw20.mint,
        Some(MinterResponse { minter: CONTRACT.to_string(), cap: Some(max_supply) })
    );
    assert_eq!(cw20.marketing.unwrap().marketing, Some("gov".to_string()));
    assert_eq!(cw20.name, "Test Token");
}

#[test]
fn test_instantiate_negative() {
    let max_supply = 1000000u128;
    let max_minted = 500000u128;

    let _msg = InstantiateMsg {
        cw20_init_msg: Cw20InstantiateMsg {
            name: "Test Token".to_string(),
            symbol: "TEST".to_string(),
            decimals: 6,
            initial_balances: vec![Cw20Coin { address: "lucky".to_string(), amount: 1000u128 }],
            mint: None,
            marketing: Some(mock_cw20_marketing_init_msg()),
        },
        gov: Some(Addr::unchecked("gov")),
        max_supply,
        max_minted,
    };
    let _res = instantiate(&Addr::unchecked(CONTRACT), &Addr::unchecked("creator"), _msg);
    match _res {
        Err(ContractError::UnableInitialBalances {}) => {}
        _ => panic!("Must return unable initial balances error"),
    }
}

#[test]
fn ve_kpt_test_update_config() {
    let max_supply = 1000000u128;
    let max_minted = 500000u128;
    let (mut storage, mut ledger) = start(max_supply, max_minted);

    let update = || ExecuteMsg::UpdateConfig {
        max_minted: Some(max_minted),
        kpt_fund: Some(Addr::unchecked("new_kpt_fund")),
        gov: Some(Addr::unchecked("new_gov")),
    };
    let _res = run(&mut storage, &mut ledger, "random_user", update());
    match _res {
        Err(ContractError::Unauthorized {}) => {}
        _ => panic!("Must return unauthorized error"),
    }
    assert_eq!(
        query_vote_config(&storage),
        VoteConfigResponse {
            max_supply,
            gov: Addr::unchecked("creator"),
            kpt_fund: Addr::unchecked(""),
            max_minted,
            total_minted: 0,
        }
    );

    let _res = run(&mut storage, &mut ledger, "creator", update()).unwrap();
    assert_eq!(0, _res);
    assert_eq!(
        query_vote_config(&storage),
        VoteConfigResponse {
            max_supply,
            gov: Addr::unchecked("new_gov"),
            kpt_fund: Addr::unchecked("new_kpt_fund"),
            max_minted,
            total_minted: 0,
        }
    );

    let _res = run(&mut storage, &mut ledger, "creator", update());
    match _res {
        Err(ContractError::Unauthorized {}) => {}
        _ => panic!("Must return unauthorized error"),
    }
}

#[test]
fn test_set_minters() {
    let (mut storage, mut ledger) = start(1000000u128, 500000u128);

    let msg = || ExecuteMsg::SetMinters {
        contracts: vec![
            Addr::unchecked("address000"),
            Addr::unchecked("address111"),
            Addr::unchecked("address222"),
        ],
        is_minter: vec![true, false, true],
    };
    let _res = run(&mut storage, &mut ledger, "random_user", msg());
    match _res {
        Err(ContractError::Unauthorized {}) => {}
        _ => panic!("Must return unauthorized error"),
    }

    let _res = run(&mut storage, &mut ledger, "creator", msg()).unwrap();
    assert_eq!(0, _res);

    assert_eq!(
        query_is_minter(&storage, &Addr::unchecked("address000")),
        IsMinterResponse { is_minter: true }
    );
    assert_eq!(
        query_is_minter(&storage, &Addr::unchecked("address111")),
        IsMinterResponse { is_minter: false }
    );
    assert_eq!(
        query_is_minter(&storage, &Addr::unchecked("address222")),
        IsMinterResponse { is_minter: true }
    );
    assert_eq!(
        query_is_minter(&storage, &Addr::unchecked("address333")),
        IsMinterResponse { is_minter: false }
    );

    // as many flags as accounts
    let res = run(
        &mut storage,
        &mut ledger,
        "creator",
        ExecuteMsg::SetMinters { contracts: vec![Addr::unchecked("a")], is_minter: vec![] },
    );
    assert_eq!(res.err().unwrap(), ContractError::InvalidInput {});
}

#[test]
fn ve_kpt_test_mint() {
    let max_supply = 1000000u128;
    let max_minted = 500000u128;
    let amount = 112233u128;
    let (mut storage, mut ledger) = start(max_supply, max_minted);
    let mint_msg = || ExecuteMsg::Mint { recipient: Addr::unchecked("lucky"), amount };

    let _res = run(&mut storage, &mut ledger, "creator", mint_msg());
    match _res {
        Err(ContractError::Unauthorized {}) => {}
        _ => panic!("Mint Contract Not Config"),
    }

    let _msg = ExecuteMsg::UpdateConfig {
        max_minted: Some(max_minted),
        kpt_fund: Some(Addr::unchecked("new_kpt_fund")),
        gov: None,
    };
    let _res = run(&mut storage, &mut ledger, "creator", _msg).unwrap();
    assert_eq!(0, _res);

    let _res = run(&mut storage, &mut ledger, "random_user", mint_msg());
    match _res {
        Err(ContractError::Unauthorized {}) => {}
        _ => panic!("Must return unauthorized error"),
    }

    let _res = run(&mut storage, &mut ledger, "new_kpt_fund", mint_msg()).unwrap();
    assert_eq!(0, _res);
    assert_eq!(ledger.balance("lucky"), 112233);
    assert_eq!(get_votes(&storage, &Addr::unchecked("lucky")), GetVotesResponse { votes: 112233 });

    assert_eq!(
        query_vote_config(&storage),
        VoteConfigResponse {
            max_supply,
            gov: Addr::unchecked("creator"),
            kpt_fund: Addr::unchecked("new_kpt_fund"),
            max_minted,
            total_minted: 0,
        }
    );
}

#[test]
fn test_mint_with_minter() {
    let max_supply = 1000000u128;
    let max_minted = 500000u128;
    let amount = 500000u128;
    let amount2 = 5u128;
    let (mut storage, mut ledger) = start(max_supply, max_minted);

    let _msg = ExecuteMsg::UpdateConfig {
        max_minted: Some(max_minted),
        kpt_fund: Some(Addr::unchecked("new_kpt_fund")),
        gov: None,
    };
    assert_eq!(0, run(&mut storage, &mut ledger, "creator", _msg).unwrap());

    let _msg = ExecuteMsg::SetMinters {
        contracts: vec![Addr::unchecked("address000")],
        is_minter: vec![true],
    };
    assert_eq!(0, run(&mut storage, &mut ledger, "creator", _msg).unwrap());

    let _msg = ExecuteMsg::Mint { recipient: Addr::unchecked("lucky"), amount };
    let _res = run(&mut storage, &mut ledger, "address000", _msg).unwrap();
    assert_eq!(1, _res);
    assert_eq!(ledger.balance("lucky"), amount);
    assert_eq!(
        query_vote_config(&storage),
        VoteConfigResponse {
            max_supply,
            gov: Addr::unchecked("creator"),
            kpt_fund: Addr::unchecked("new_kpt_fund"),
            max_minted,
            total_minted: amount,
        }
    );

    let _msg = ExecuteMsg::Mint { recipient: Addr::unchecked("lucky"), amount: amount2 };
    let _res = run(&mut storage, &mut ledger, "address000", _msg).unwrap_err();
    match _res {
        ContractError::Std(StdError::GenericErr { msg, .. }) => {
            assert_eq!(msg, "Invalid zero amount".to_string())
        }
        _ => panic!("Mint return over error"),
    }

    assert_eq!(ledger.balance("lucky"), amount);
    assert_eq!(
        query_vote_config(&storage),
        VoteConfigResponse {
            max_supply,
            gov: Addr::unchecked("creator"),
            kpt_fund: Addr::unchecked("new_kpt_fund"),
            max_minted,
            total_minted: max_minted,
        }
    );
}

#[test]
fn mint_is_capped_to_what_is_left_of_the_minters_limit() {
    let (mut storage, _ledger) = start(1_000_000, 500);
    let gov = Addr::unchecked("creator");
    vesting_core::ve_kpt::handler::update_config(
        &mut storage,
        &gov,
        None,
        Some(Addr::unchecked("fund")),
        None,
    )
    .unwrap();
    vesting_core::ve_kpt::handler::set_minters(
        &mut storage,
        &gov,
        vec![Addr::unchecked("m")],
        vec![true],
    )
    .unwrap();
    let m = Addr::unchecked("m");
    let lucky = Addr::unchecked("lucky");
    let order = mint(&mut storage, &m, &lucky, 300).unwrap();
    assert_eq!(order.amount, 300);
    assert_eq!(
        order.refresh_reward,
        Some(FundOrder {
            contract_addr: Addr::unchecked("fund"),
            msg: KptFundMsg::RefreshReward { account: Addr::unchecked("lucky") },
        })
    );
    let order = mint(&mut storage, &m, &lucky, 300).unwrap();
    assert_eq!(order.amount, 200);
    assert_eq!(query_vote_config(&storage).total_minted, 500);
    let order = mint(&mut storage, &m, &lucky, u128::MAX).unwrap();
    assert_eq!(order.amount, 0);
    // the fund is not limited and not counted
    let order = mint(&mut storage, &Addr::unchecked("fund"), &lucky, 7_000).unwrap();
    assert_eq!(order.amount, 7_000);
    assert_eq!(order.refresh_reward, None);
    assert_eq!(query_vote_config(&storage).total_minted, 500);
    // a limit lowered below what is minted
    vesting_core::ve_kpt::handler::update_config(&mut storage, &gov, Some(100), None, None).unwrap();
    let res = mint(&mut storage, &m, &lucky, 1);
    assert_eq!(
        res.err().unwrap(),
        ContractError::Std(StdError::overflow(OverflowError {
            operation: OverflowOperation::Sub
        }))
    );
    assert_eq!(
        burn(&storage, &Addr::unchecked("x"), &lucky, 1).err().unwrap(),
        ContractError::Unauthorized {}
    );
}

#[test]
fn supply_above_the_limit_is_refused_after_the_mint() {
    let (mut storage, _ledger) = start(1_000, 500);
    let lucky = Addr::unchecked("lucky");
    let res = ve_mint(&mut storage, 5, &lucky, 10, 1_001);
    assert_eq!(
        res.err().unwrap(),
        StdError::generic_err("total supply risks overflowing votes")
    );
    assert_eq!(num_checkpoints(&storage, &lucky), NumCheckpointsResponse { num: 0 });
    assert!(ve_mint(&mut storage, 5, &lucky, 10, 1_000).is_ok());
    assert_eq!(get_votes(&storage, &lucky).votes, 10);
    assert_eq!(
        ve_burn(&mut storage, 6, &lucky, 11).err().unwrap(),
        StdError::overflow(OverflowError { operation: OverflowOperation::Sub })
    );
    assert_eq!(get_votes(&storage, &lucky).votes, 10);
}

#[test]
fn ve_kpt_test_burn() {
    let max_supply = 1000000u128;
    let max_minted = 500000u128;
    let amount = 112233u128;
    let (mut storage, mut ledger) = start(max_supply, max_minted);

    let _msg = ExecuteMsg::UpdateConfig {
        max_minted: Some(max_minted),
        kpt_fund: Some(Addr::unchecked("new_kpt_fund")),
        gov: Some(Addr::unchecked("creator")),
    };
    assert_eq!(0, run(&mut storage, &mut ledger, "creator", _msg).unwrap());
    let _msg = ExecuteMsg::SetMinters {
        contracts: vec![Addr::unchecked("address000")],
        is_minter: vec![true],
    };
    assert_eq!(0, run(&mut storage, &mut ledger, "creator", _msg).unwrap());

    let _msg = ExecuteMsg::Mint { recipient: Addr::unchecked("lucky"), amount };
    assert_eq!(0, run(&mut storage, &mut ledger, "new_kpt_fund", _msg).unwrap());
    assert_eq!(ledger.balance("lucky"), 112233);

    let _msg = ExecuteMsg::Burn { user: Addr::unchecked("lucky"), amount };
    let _res = run(&mut storage, &mut ledger, "creator", _msg);
    match _res {
        Err(ContractError::Unauthorized {}) => {}
        _ => panic!("Must return unauthorized error"),
    }

    let _msg = ExecuteMsg::Burn { user: Addr::unchecked("lucky"), amount: 1u128 };
    assert_eq!(0, run(&mut storage, &mut ledger, "new_kpt_fund", _msg).unwrap());
    assert_eq!(ledger.balance("lucky"), 112232u128);

    let _msg = ExecuteMsg::Burn { user: Addr::unchecked("lucky"), amount: 1u128 };
    assert_eq!(1, run(&mut storage, &mut ledger, "address000", _msg).unwrap());
    assert_eq!(ledger.balance("lucky"), 112231u128);
    assert_eq!(get_votes(&storage, &Addr::unchecked("lucky")).votes, 112231);
}

#[test]
fn test_write_checkpoint() {
    let (mut storage, _ledger) = start(1000000u128, 500000u128);
    let block_number = 1;
    let account = Addr::unchecked("account");
    let delta = 100;
    // Test positive case
    let (old_weight, new_weight) =
        _write_checkpoint(&mut storage, block_number, &account, WeightOp::Add, delta).unwrap();
    assert_eq!(old_weight, 0);
    assert_eq!(new_weight, 100);

    let (old_weight, new_weight) =
        _write_checkpoint(&mut storage, block_number, &account, WeightOp::Subtract, delta).unwrap();
    assert_eq!(old_weight, 100);
    assert_eq!(new_weight, 0);

    // each write at a block after the first adds a checkpoint
    assert_eq!(num_checkpoints(&storage, &account).num, 2);
    assert_eq!(
        checkpoints(&storage, &account, 0).unwrap(),
        Checkpoint { from_block: 1, votes: 100 }
    );
    assert_eq!(checkpoints(&storage, &account, 1).unwrap(), Checkpoint { from_block: 1, votes: 0 });
    assert_eq!(
        checkpoints(&storage, &account, 2).err().unwrap(),
        StdError::generic_err("Position out of range")
    );
    // and nothing is written where the votes do not fit
    let res = _write_checkpoint(&mut storage, 2, &account, WeightOp::Subtract, 1);
    assert_eq!(res.err().unwrap(), OverflowError { operation: OverflowOperation::Sub });
    _write_checkpoint(&mut storage, 2, &account, WeightOp::Add, u128::MAX).unwrap();
    let res = _write_checkpoint(&mut storage, 3, &account, WeightOp::Add, 1);
    assert_eq!(res.err().unwrap(), OverflowError { operation: OverflowOperation::Add });
    assert_eq!(num_checkpoints(&storage, &account).num, 3);
    assert_eq!(_add(1, 2), Ok(3));
    assert_eq!(_subtract(3, 2), Ok(1));
}

#[test]
fn checkpoint_for_block_zero_is_overwritten() {
    let (mut storage, _ledger) = start(1000000u128, 500000u128);
    let account = Addr::unchecked("account");
    _write_checkpoint(&mut storage, 0, &account, WeightOp::Add, 5).unwrap();
    _write_checkpoint(&mut storage, 9, &account, WeightOp::Add, 7).unwrap();
    assert_eq!(num_checkpoints(&storage, &account).num, 1);
    assert_eq!(checkpoints(&storage, &account, 0).unwrap(), Checkpoint { from_block: 0, votes: 12 });
}

#[test]
fn past_votes_are_looked_up_by_block() {
    let (mut storage, _ledger) = start(1000000u128, 500000u128);
    let account = Addr::unchecked("account");
    for (block, delta) in [(10u64, 100u128), (20, 50), (30, 25)] {
        _write_checkpoint(&mut storage, block, &account, WeightOp::Add, delta).unwrap();
    }
    assert_eq!(get_past_votes(&storage, 100, &account, 9).unwrap().votes, 0);
    assert_eq!(get_past_votes(&storage, 100, &account, 10).unwrap().votes, 100);
    assert_eq!(get_past_votes(&storage, 100, &account, 25).unwrap().votes, 150);
    assert_eq!(get_past_votes(&storage, 100, &account, 99).unwrap().votes, 175);
    assert_eq!(
        get_past_votes(&storage, 100, &account, 100).err().unwrap(),
        StdError::generic_err("Block not yet mined")
    );
    assert_eq!(get_past_total_supply(&storage, 100, 50).unwrap().total_supply, 0);
    assert!(get_past_total_supply(&storage, 100, 100).is_err());
    assert_eq!(get_past_votes(&storage, 100, &Addr::unchecked("nobody"), 50).unwrap().votes, 0);

    match query(&storage, 100, QueryMsg::GetVotes { account: Addr::unchecked("account") }).unwrap() {
        QueryResponse::Votes(v) => assert_eq!(v.votes, 175),
        other => panic!("unexpected answer {:?}", other),
    }
    match query(&storage, 100, QueryMsg::Checkpoints { account: Addr::unchecked("account"), pos: 1 })
        .unwrap()
    {
        QueryResponse::Checkpoint(c) => assert_eq!(c, Checkpoint { from_block: 20, votes: 150 }),
        other => panic!("unexpected answer {:?}", other),
    }
    assert!(query(&storage, 100, QueryMsg::GetPastVotes {
        account: Addr::unchecked("account"),
        block_number: 100
    })
    .is_err());
}
