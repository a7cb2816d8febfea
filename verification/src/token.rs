//! What the contracts say to the token ledger that they sit on, in plain
//! values: how the ledger is to be created, and what it is asked to do.

use vstd::prelude::*;
use crate::addr::Addr;

verus! {

/// A balance that the ledger starts with.
#[derive(Debug, PartialEq, Eq)]
pub struct Cw20Coin {
    pub address: String,
    pub amount: u128,
}

/// Who may mint, and up to which total supply.
#[derive(Debug, PartialEq, Eq)]
pub struct MinterResponse {
    pub minter: String,
    pub cap: Option<u128>,
}

/// A token's logo: where to find it, or the picture itself.
#[derive(Debug, PartialEq, Eq)]
pub enum Logo {
    Url(String),
    EmbeddedSvg(Vec<u8>),
    EmbeddedPng(Vec<u8>),
}

#[derive(Debug, PartialEq, Eq)]
pub struct InstantiateMarketingInfo {
    pub project: Option<String>,
    pub description: Option<String>,
    pub marketing: Option<String>,
    pub logo: Option<Logo>,
}

/// How the token ledger is to be created.
#[derive(Debug, PartialEq, Eq)]
pub struct Cw20InstantiateMsg {
    pub name: String,
    pub symbol: String,
    pub decimals: u8,
    pub initial_balances: Vec<Cw20Coin>,
    pub mint: Option<MinterResponse>,
    pub marketing: Option<InstantiateMarketingInfo>,
}

/// The message that tells a contract that tokens were minted for it.
#[derive(Debug, PartialEq, Eq)]
pub struct Cw20MintReceiveMsg {
    pub sender: String,
    pub amount: u128,
    pub msg: Vec<u8>,
}

/// A message for a contract, by the contract's account.
#[derive(Debug, PartialEq, Eq)]
pub struct MintReceiveOrder {
    pub contract_addr: String,
    pub msg: Cw20MintReceiveMsg,
}

impl Cw20MintReceiveMsg {
    /// The order that sends this message to the named contract.
    pub fn into_cosmos_msg(self, contract_addr: String) -> (r: MintReceiveOrder)
        ensures
            r.contract_addr == contract_addr,
            r.msg == self,
    {
        MintReceiveOrder { contract_addr, msg: self }
    }
}

/// The ledger as the contract creating it prepares it: the contract itself
/// mints, up to the largest supply, and the governor looks after the
/// marketing data where there is any.
pub open spec fn prepared(
    msg: &Cw20InstantiateMsg,
    out: &Cw20InstantiateMsg,
    contract: &Addr,
    max_supply: u128,
    gov: &Addr,
) -> bool {
    &&& out.name == msg.name
    &&& out.symbol == msg.symbol
    &&& out.decimals == msg.decimals
    &&& out.initial_balances == msg.initial_balances
    &&& out.mint is Some
    &&& out.mint->Some_0.minter@ == contract@
    &&& out.mint->Some_0.cap == Some(max_supply)
    &&& out.marketing is Some <==> msg.marketing is Some
    &&& out.marketing is Some ==> {
        &&& out.marketing->Some_0.project == msg.marketing->Some_0.project
        &&& out.marketing->Some_0.description == msg.marketing->Some_0.description
        &&& out.marketing->Some_0.logo == msg.marketing->Some_0.logo
        &&& out.marketing->Some_0.marketing is Some
        &&& out.marketing->Some_0.marketing->Some_0@ == gov@
    }
}

/// Prepares the creation of the ledger: the contract itself is to mint, up
/// to `max_supply`, and `gov` is to look after the marketing data.
pub fn prepare(msg: Cw20InstantiateMsg, contract: &Addr, max_supply: u128, gov: &Addr) -> (r:
    Cw20InstantiateMsg)
    ensures
        prepared(&msg, &r, contract, max_supply, gov),
{
    let marketing = match msg.marketing {
        Some(marketing) => Some(
            InstantiateMarketingInfo {
                project: marketing.project,
                description: marketing.description,
                logo: marketing.logo,
                marketing: Some(gov.to_string()),
            },
        ),
        None => None,
    };
    Cw20InstantiateMsg {
        name: msg.name,
        symbol: msg.symbol,
        decimals: msg.decimals,
        initial_balances: msg.initial_balances,
        mint: Some(MinterResponse { minter: contract.to_string(), cap: Some(max_supply) }),
        marketing,
    }
}

/// When an allowance ends.
#[derive(Clone, Copy, Debug, PartialEq, Eq, Structural)]
pub enum Expiration {
    AtHeight(u64),
    /// A time in nanoseconds.
    AtTime(u64),
    Never {  },
}

/// What an account asks of the token ledger itself; the contracts hand these
/// on as they come.
#[derive(Debug, PartialEq, Eq)]
pub enum LedgerMsg {
    Burn { amount: u128 },
    BurnFrom { owner: String, amount: u128 },
    Transfer { recipient: String, amount: u128 },
    Send { contract: String, amount: u128, msg: Vec<u8> },
    IncreaseAllowance { spender: String, amount: u128, expires: Option<Expiration> },
    DecreaseAllowance { spender: String, amount: u128, expires: Option<Expiration> },
    TransferFrom { owner: String, recipient: String, amount: u128 },
    SendFrom { owner: String, contract: String, amount: u128, msg: Vec<u8> },
    UpdateMinter { new_minter: Option<String> },
    UpdateMarketing {
        project: Option<String>,
        description: Option<String>,
        marketing: Option<String>,
    },
    UploadLogo(Logo),
}

/// What an account asks the token ledger about.
#[derive(Debug, PartialEq, Eq)]
pub enum LedgerQuery {
    Balance { address: String },
    TokenInfo {  },
    Minter {  },
    Allowance { owner: String, spender: String },
    AllAllowances { owner: String, start_after: Option<String>, limit: Option<u32> },
    AllSpenderAllowances { spender: String, start_after: Option<String>, limit: Option<u32> },
    AllAccounts { start_after: Option<String>, limit: Option<u32> },
    MarketingInfo {  },
    DownloadLogo {  },
}

/// What the ledger is to mint, and the contract that is told of it where one
/// is to be.
#[derive(Debug, PartialEq, Eq)]
pub struct MintOrder {
    pub recipient: Addr,
    pub amount: u128,
    pub notify: Option<MintReceiveOrder>,
}

/// What the ledger is to burn, and of which account.
#[derive(Debug, PartialEq, Eq)]
pub struct BurnOrder {
    pub owner: Addr,
    pub amount: u128,
}

/// The notice of a mint for a contract: given where a contract and a message
/// for it are both named.
pub open spec fn is_notice(
    notify: &Option<MintReceiveOrder>,
    sender: &Addr,
    amount: u128,
    contract: &Option<String>,
    msg: &Option<Vec<u8>>,
) -> bool {
    if *contract is Some && *msg is Some {
        &&& *notify is Some
        &&& notify->Some_0.contract_addr == contract->Some_0
        &&& notify->Some_0.msg.sender@ == sender@
        &&& notify->Some_0.msg.amount == amount
        &&& notify->Some_0.msg.msg == msg->Some_0
    } else {
        *notify is None
    }
}

/// The notice of a mint for a contract, where a contract and a message for
/// it are both named.
pub fn notice(sender: &Addr, amount: u128, contract: Option<String>, msg: Option<Vec<u8>>) -> (r:
    Option<MintReceiveOrder>)
    ensures
        is_notice(&r, sender, amount, &contract, &msg),
{
    match contract {
        Some(contract) => match msg {
            Some(msg) => Some(
                Cw20MintReceiveMsg { sender: sender.to_string(), amount, msg }.into_cosmos_msg(contract),
            ),
            None => None,
        },
        None => None,
    }
}

} // verus!
