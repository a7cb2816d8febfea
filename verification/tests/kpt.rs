use std::collections::BTreeMap;

use vesting_core::addr::Addr;
use vesting_core::errors::StdError;
use vesting_core::kpt::contract::{execute, instantiate, query, Action, QueryResponse};
use vesting_core::kpt::error::ContractError;
use vesting_core::kpt::handler::{burn, mint};
use vesting_core::kpt::msg::{ExecuteMsg, InstantiateMsg, KptConfigResponse, QueryMsg};
use vesting_core::kpt::querier::query_kpt_config;
use vesting_core::kpt::state::Storage;
use vesting_core::token::{
    BurnOrder, Cw20InstantiateMsg, Cw20MintReceiveMsg, InstantiateMarketingInfo, LedgerMsg,
    LedgerQuery, MintReceiveOrder, MinterResponse,
};

const CONTRACT: &str = "cosmos2contract";

fn mock_cw20_init_msg() -> Cw20InstantiateMsg {
    Cw20InstantiateMsg {
        name: "Test Token".to_string(),
        symbol: "TEST".to_string(),
        decimals: 6,
        initial_balances: vec![],
        mint: None,
        marketing: Some(InstantiateMarketingInfo {
            project: Option::from("Test Project".to_string()),
            description: Option::from("Test Description".to_string()),
            logo: None,
            marketing: None,
        }),
    }
}

fn default_instantiate(max_supply: u128) -> InstantiateMsg {
    InstantiateMsg { cw20_init_msg: mock_cw20_init_msg(), max_supply, gov: None }
}

/// The token ledger, as far as minting and burning go: it refuses an amount
/// of zero, a supply above the cap, and a burn of more than the balance.
struct Ledger {
    balances: BTreeMap<String, u128>,
    total_supply: u128,
    cap: Option<u128>,
}

impl Ledger {
    fn balance(&self, who: &str) -> u128 {
        *self.balances.get(who).unwrap_or(&0)
    }

    fn mint(&mut self, to: &str, amount: u128) -> Result<(), ContractError> {
        if amount == 0 {
            return Err(ContractError::Std(StdError::generic_err("Invalid zero amount")));
        }
        if let Some(cap) = self.cap {
            if self.total_supply + amount > cap {
                return Err(ContractError::Std(StdError::generic_err(
                    "Minting cannot exceed the cap",
                )));
            }
        }
        *self.balances.entry(to.to_string()).or_insert(0) += amount;
        self.total_supply += amount;
        Ok(())
    }

    fn burn(&mut self, from: &str, amount: u128) -> Result<(), ContractError> {
        if amount == 0 || self.balance(from) < amount {
            return Err(ContractError::Std(StdError::generic_err("Cannot burn")));
        }
        *self.balances.entry(from.to_string()).or_insert(0) -= amount;
        self.total_supply -= amount;
        Ok(())
    }
}

/// Runs an operation as the chain does: the decision, then the ledger. Hands
/// back the number of messages that are sent on.
fn run(
    storage: &mut Storage,
    ledger: &mut Ledger,
    sender: &str,
    msg: ExecuteMsg,
) -> Result<usize, ContractError> {
    match execute(storage, &Addr::unchecked(sender), msg)? {
        Action::Done => Ok(0),
        Action::Mint(order) => {
            ledger.mint(order.recipient.as_str(), order.amount)?;
            Ok(order.notify.iter().count())
        }
        Action::Burn(order) => {
            ledger.burn(order.owner.as_str(), order.amount)?;
            Ok(0)
        }
        Action::Ledger(LedgerMsg::Burn { amount }) => {
            ledger.burn(sender, amount)?;
            Ok(0)
        }
        Action::Ledger(_) => Ok(0),
    }
}

fn start(max_supply: u128) -> (Storage, Ledger) {
    let (storage, cw20) = instantiate(
        &Addr::unchecked(CONTRACT),
        &Addr::unchecked("creator"),
        default_instantiate(max_supply),
    );
    let ledger = Ledger {
        balances: BTreeMap::new(),
        total_supply: 0,
        cap: cw20.mint.as_ref().and_then(|m| m.cap),
    };
    (storage, ledger)
}

fn mint_msg(amount: u128) -> ExecuteMsg {
    ExecuteMsg::Mint { recipient: Addr::unchecked("lucky"), amount, contract: None, msg: None }
}

#[test]
fn kpt_test_instantiate() {
    let max_supply = 1000000u128;
    let _msg = InstantiateMsg {
        cw20_init_msg: mock_cw20_init_msg(),
        gov: Some(Addr::unchecked("gov")),
        max_supply,
    };
    let (storage, cw20) = instantiate(&Addr::unchecked(CONTRACT), &Addr::unchecked("creator"), _msg);

    assert_eq!(
        query_kpt_config(&storage),
        KptConfigResponse {
            max_supply,
            gov: Addr::unchecked("gov"),
            kpt_fund: Addr::unchecked(""),
            kpt_distribute: Addr::unchecked(""),
        }
    );
    assert_eq!(
        cw20.mint,
        Some(MinterResponse { minter: CONTRACT.to_string(), cap: Some(max_supply) })
    );
    assert_eq!(cw20.marketing.unwrap().marketing, Some("gov".to_string()));
}

#[test]
fn kpt_test_update_config() {
    let max_supply = 1000000u128;
    let (mut storage, mut ledger) = start(max_supply);
    let update = || ExecuteMsg::UpdateConfig {
        kpt_fund: Some(Addr::unchecked("new_kpt_fund")),
        kpt_distribute: Some(Addr::unchecked("new_kpt_distribute")),
        gov: Some(Addr::unchecked("new_gov")),
    };

    let _res = run(&mut storage, &mut ledger, "random_user", update());
    match _res {
        Err(ContractError::Unauthorized {}) => {}
        _ => panic!("Must return unauthorized error"),
    }
    assert_eq!(
        query_kpt_config(&storage),
        KptConfigResponse {
            max_supply,
            gov: Addr::unchecked("creator"),
            kpt_fund: Addr::unchecked(""),
            kpt_distribute: Addr::unchecked(""),
        }
    );

    let _res = run(&mut storage, &mut ledger, "creator", update()).unwrap();
    assert_eq!(0, _res);
    assert_eq!(
        query_kpt_config(&storage),
        KptConfigResponse {
            max_supply,
            gov: Addr::unchecked("new_gov"),
            kpt_fund: Addr::unchecked("new_kpt_fund"),
            kpt_distribute: Addr::unchecked("new_kpt_distribute"),
        }
    );

    let _res = run(&mut storage, &mut ledger, "creator", update());
    match _res {
        Err(ContractError::Unauthorized {}) => {}
        _ => panic!("Must return unauthorized error"),
    }
}

#[test]
fn kpt_test_mint() {
    let max_supply = 1000000u128;
    let amount = 112233u128;
    let (mut storage, mut ledger) = start(max_supply);

    // while neither a fund nor a distributor is configured nobody may mint
    for sender in ["creator", "random_user"] {
        let _res = run(&mut storage, &mut ledger, sender, mint_msg(amount)).unwrap_err();
        match _res {
            ContractError::Std(StdError::GenericErr { msg, .. }) => {
                assert_eq!(msg, "mint contract not configured".to_string())
            }
            _ => panic!("Do not enter in"),
        }
    }

    let _msg = ExecuteMsg::UpdateConfig {
        kpt_fund: Some(Addr::unchecked("new_kpt_fund")),
        kpt_distribute: Some(Addr::unchecked("new_kpt_distribute")),
        gov: Some(Addr::unchecked("new_gov")),
    };
    assert_eq!(0, run(&mut storage, &mut ledger, "creator", _msg).unwrap());

    for sender in ["random_user", "new_gov"] {
        let _res = run(&mut storage, &mut ledger, sender, mint_msg(amount));
        match _res {
            Err(ContractError::Unauthorized {}) => {}
            _ => panic!("Must return unauthorized error"),
        }
    }

    let _res = run(&mut storage, &mut ledger, "new_kpt_fund", mint_msg(amount)).unwrap();
    assert_eq!(0, _res);
    assert_eq!(ledger.balance("lucky"), 112233);

    let _res = run(&mut storage, &mut ledger, "new_kpt_distribute", mint_msg(amount)).unwrap();
    assert_eq!(0, _res);
    assert_eq!(ledger.balance("lucky"), 224466);
}

#[test]
fn kpt_mint_tells_the_named_contract() {
    let (mut storage, mut ledger) = start(1000);
    let _msg = ExecuteMsg::UpdateConfig {
        kpt_fund: None,
        kpt_distribute: Some(Addr::unchecked("d")),
        gov: None,
    };
    run(&mut storage, &mut ledger, "creator", _msg).unwrap();
    let d = Addr::unchecked("d");
    let lucky = Addr::unchecked("lucky");
    let order =
        mint(&storage, &d, &lucky, 5, Some("hook".to_string()), Some(vec![1, 2])).unwrap();
    assert_eq!(
        order.notify,
        Some(MintReceiveOrder {
            contract_addr: "hook".to_string(),
            msg: Cw20MintReceiveMsg { sender: "d".to_string(), amount: 5, msg: vec![1, 2] },
        })
    );
    // a contract without a message, or a message without a contract: nobody is told
    assert_eq!(mint(&storage, &d, &lucky, 5, Some("hook".to_string()), None).unwrap().notify, None);
    assert_eq!(mint(&storage, &d, &lucky, 5, None, Some(vec![1])).unwrap().notify, None);
    let msg = ExecuteMsg::Mint {
        recipient: Addr::unchecked("lucky"),
        amount: 5,
        contract: Some("hook".to_string()),
        msg: Some(vec![]),
    };
    assert_eq!(1, run(&mut storage, &mut ledger, "d", msg).unwrap());
    match query(&storage, QueryMsg::KptConfig {}) {
        QueryResponse::KptConfig(c) => assert_eq!(c.kpt_distribute, Addr::unchecked("d")),
        other => panic!("unexpected answer {:?}", other),
    }
    match query(&storage, QueryMsg::Ledger(LedgerQuery::TokenInfo {})) {
        QueryResponse::Ledger(q) => assert_eq!(q, LedgerQuery::TokenInfo {}),
        other => panic!("unexpected answer {:?}", other),
    }
}

#[test]
fn kpt_test_burn() {
    let max_supply = 1000000u128;
    let amount = 112233u128;
    let (mut storage, mut ledger) = start(max_supply);

    let _msg = ExecuteMsg::UpdateConfig {
        kpt_fund: Some(Addr::unchecked("new_kpt_fund")),
        kpt_distribute: Some(Addr::unchecked("new_kpt_distribute")),
        gov: Some(Addr::unchecked("creator")),
    };
    assert_eq!(0, run(&mut storage, &mut ledger, "creator", _msg).unwrap());

    assert_eq!(0, run(&mut storage, &mut ledger, "new_kpt_fund", mint_msg(amount)).unwrap());
    assert_eq!(ledger.balance("lucky"), 112233);

    let burn_msg = || ExecuteMsg::Burn { user: Addr::unchecked("lucky"), amount };
    let _res = run(&mut storage, &mut ledger, "creator", burn_msg());
    match _res {
        Err(ContractError::Unauthorized {}) => {}
        _ => panic!("Must return unauthorized error"),
    }
    let _res = run(&mut storage, &mut ledger, "new_kpt_distribute", burn_msg());
    match _res {
        Err(ContractError::Unauthorized {}) => {}
        _ => panic!("Must return unauthorized error"),
    }
    assert_eq!(0, run(&mut storage, &mut ledger, "new_kpt_fund", burn_msg()).unwrap());
    assert_eq!(ledger.balance("lucky"), 0);
}
