//! What is decided before the ledger is asked to mint or burn, and the
//! administration of who may ask.

use vstd::prelude::*;
use crate::addr::Addr;
use crate::errors::{OverflowError, OverflowOperation, StdError};
use crate::model_util::updated;
use crate::ve_kpt::error::ContractError;
use crate::ve_kpt::msg::KptFundMsg;
use crate::ve_kpt::state::{is_minter, read_vote_config, store_minters, store_vote_config, Storage,
    VoteConfig};

verus! {

/// A message for the fund, by the fund's account.
#[derive(Debug, PartialEq, Eq)]
pub struct FundOrder {
    pub contract_addr: Addr,
    pub msg: KptFundMsg,
}

/// What the ledger is to mint, and what the fund is to be told first.
#[derive(Debug, PartialEq, Eq)]
pub struct MintOrder {
    pub recipient: Addr,
    pub amount: u128,
    pub refresh_reward: Option<FundOrder>,
}

/// What the ledger is to burn, and what the fund is to be told first.
#[derive(Debug, PartialEq, Eq)]
pub struct BurnOrder {
    pub owner: Addr,
    pub amount: u128,
    pub refresh_reward: Option<FundOrder>,
}

/// Whether the account may ask for minting and burning: it is the fund or a
/// minter.
pub open spec fn may_mint(storage: &Storage, sender: &Addr) -> bool {
    sender@ == storage.vote_config.kpt_fund@ || storage.minter(sender)
}

/// What the fund is told about an account, unless the fund itself asks.
pub open spec fn refresh_for(storage: &Storage, sender: &Addr, user: &Addr) -> Option<FundOrder> {
    if sender@ == storage.vote_config.kpt_fund@ {
        None
    } else {
        Some(
            FundOrder {
                contract_addr: storage.vote_config.kpt_fund,
                msg: KptFundMsg::RefreshReward { account: *user },
            },
        )
    }
}

/// The amount that a minter's request for `amount` comes to: the amount
/// itself while the minters' total stays within their limit, and else what
/// is left up to the limit.
pub open spec fn capped(config: &VoteConfig, amount: u128) -> int {
    if config.total_minted + amount > config.max_minted {
        config.max_minted - config.total_minted
    } else {
        amount as int
    }
}

/// What an update of the configuration leaves and hands back: refused to
/// all but the governor, and else the named fields replaced.
pub open spec fn update_config_ensures(
    pre: &Storage,
    post: &Storage,
    r: &Result<(), ContractError>,
    sender: &Addr,
    max_minted: Option<u128>,
    kpt_fund: Option<Addr>,
    gov: Option<Addr>,
) -> bool {
    if pre.vote_config.gov@ != sender@ {
        *r == Err::<(), ContractError>(ContractError::Unauthorized {  }) && *post == *pre
    } else {
        *r is Ok && *post == (Storage {
            vote_config: VoteConfig {
                max_minted: updated(max_minted, pre.vote_config.max_minted),
                kpt_fund: updated(kpt_fund, pre.vote_config.kpt_fund),
                gov: updated(gov, pre.vote_config.gov),
                ..pre.vote_config
            },
            ..*pre
        })
    }
}

/// Replaces the minters' limit, the fund and the governor where the message
/// names them. Only the governor may.
pub fn update_config(
    storage: &mut Storage,
    sender: &Addr,
    max_minted: Option<u128>,
    kpt_fund: Option<Addr>,
    gov: Option<Addr>,
) -> (r: Result<(), ContractError>)
    ensures
        update_config_ensures(old(storage), final(storage), &r, sender, max_minted, kpt_fund, gov),
{
    let mut vote_config = read_vote_config(storage);
    if *sender != vote_config.gov {
        return Err(ContractError::Unauthorized {  });
    }
    if let Some(max_minted) = max_minted {
        vote_config.max_minted = max_minted;
    }
    if let Some(kpt_fund) = kpt_fund {
        vote_config.kpt_fund = kpt_fund;
    }
    if let Some(gov) = gov {
        vote_config.gov = gov;
    }
    store_vote_config(storage, &vote_config);
    Ok(())
}

/// The minters once the first `upto` of the accounts have their flags
/// recorded.
pub open spec fn minters_into(
    minters: Map<Seq<u8>, bool>,
    contracts: Seq<Addr>,
    flags: Seq<bool>,
    upto: int,
) -> Map<Seq<u8>, bool>
    decreases upto,
{
    if upto <= 0 {
        minters
    } else {
        minters_into(minters, contracts, flags, upto - 1).insert(
            contracts[upto - 1].key(),
            flags[upto - 1],
        )
    }
}

/// What the recording of minters leaves and hands back: refused to all but
/// the governor and where flags and accounts differ in number, and else each
/// account's flag recorded, a later one in place of an earlier one.
pub open spec fn set_minters_ensures(
    pre: &Storage,
    post: &Storage,
    r: &Result<(), ContractError>,
    sender: &Addr,
    contracts: Seq<Addr>,
    is_minter: Seq<bool>,
) -> bool {
    if pre.vote_config.gov@ != sender@ {
        *r == Err::<(), ContractError>(ContractError::Unauthorized {  }) && *post == *pre
    } else if contracts.len() != is_minter.len() {
        *r == Err::<(), ContractError>(ContractError::InvalidInput {  }) && *post == *pre
    } else {
        &&& *r is Ok
        &&& post.minters.map() == minters_into(
            pre.minters.map(),
            contracts,
            is_minter,
            contracts.len() as int,
        )
        &&& post.vote_config == pre.vote_config
        &&& post.vote_info == pre.vote_info
        &&& post.check_points == pre.check_points
    }
}

/// Records for each account whether it may mint. Only the governor may, and
/// there have to be as many flags as accounts.
pub fn set_minters(
    storage: &mut Storage,
    sender: &Addr,
    contracts: Vec<Addr>,
    is_minter: Vec<bool>,
) -> (r: Result<(), ContractError>)
    ensures
        set_minters_ensures(old(storage), final(storage), &r, sender, contracts@, is_minter@),
{
    let vote_config = read_vote_config(storage);
    if *sender != vote_config.gov {
        return Err(ContractError::Unauthorized {  });
    }
    if contracts.len() != is_minter.len() {
        return Err(ContractError::InvalidInput {  });
    }
    let mut i: usize = 0;
    while i < contracts.len()
        invariant
            i <= contracts@.len(),
            contracts@.len() == is_minter@.len(),
            storage.minters.map() == minters_into(
                old(storage).minters.map(),
                contracts@,
                is_minter@,
                i as int,
            ),
            storage.vote_config == old(storage).vote_config,
            storage.vote_info == old(storage).vote_info,
            storage.check_points == old(storage).check_points,
        decreases contracts@.len() - i,
    {
        store_minters(storage, &contracts[i], is_minter[i]);
        i += 1;
    }
    Ok(())
}

/// What a request to mint leaves and hands back: refused to all but the
/// fund and the minters; for the fund the amount as asked, nothing counted;
/// for a minter the amount that the limit allows, counted towards the
/// limit, and the fund told; refused where more is counted than the limit.
pub open spec fn mint_ensures(
    pre: &Storage,
    post: &Storage,
    r: &Result<MintOrder, ContractError>,
    sender: &Addr,
    user: &Addr,
    amount: u128,
) -> bool {
    let config = pre.vote_config;
    if !may_mint(pre, sender) {
        *r == Err::<MintOrder, ContractError>(ContractError::Unauthorized {  }) && *post == *pre
    } else if sender@ == config.kpt_fund@ {
        &&& *r == Ok::<MintOrder, ContractError>(
            MintOrder { recipient: *user, amount, refresh_reward: None },
        )
        &&& *post == *pre
    } else if capped(&config, amount) < 0 {
        &&& *r == Err::<MintOrder, ContractError>(
            ContractError::Std(
                StdError::Overflow { source: OverflowError { operation: OverflowOperation::Sub } },
            ),
        )
        &&& *post == *pre
    } else {
        &&& *r == Ok::<MintOrder, ContractError>(
            MintOrder {
                recipient: *user,
                amount: capped(&config, amount) as u128,
                refresh_reward: refresh_for(pre, sender, user),
            },
        )
        &&& *post == (Storage {
            vote_config: VoteConfig {
                total_minted: (config.total_minted + capped(&config, amount)) as u128,
                ..config
            },
            ..*pre
        })
    }
}

/// What a request to burn hands back: refused to all but the fund and the
/// minters, and else the amount as asked, and the fund told unless it asks
/// itself.
pub open spec fn burn_ensures(
    storage: &Storage,
    r: &Result<BurnOrder, ContractError>,
    sender: &Addr,
    user: &Addr,
    amount: u128,
) -> bool {
    if !may_mint(storage, sender) {
        *r == Err::<BurnOrder, ContractError>(ContractError::Unauthorized {  })
    } else {
        *r == Ok::<BurnOrder, ContractError>(
            BurnOrder { owner: *user, amount, refresh_reward: refresh_for(storage, sender, user) },
        )
    }
}

/// Decides a request to mint `amount` for `user`: who may ask, how much of
/// it the minters' limit allows, and what the fund is told. The fund's own
/// requests are not limited and not counted.
pub fn mint(storage: &mut Storage, sender: &Addr, user: &Addr, amount: u128) -> (r: Result<
    MintOrder,
    ContractError,
>)
    ensures
        mint_ensures(old(storage), final(storage), &r, sender, user, amount),
{
    let mut vote_config = read_vote_config(storage);
    if *sender != vote_config.kpt_fund && !is_minter(storage, sender) {
        return Err(ContractError::Unauthorized {  });
    }
    let mut reward: u128 = amount;
    let mut refresh_reward: Option<FundOrder> = None;
    if *sender != vote_config.kpt_fund {
        refresh_reward = Some(
            FundOrder {
                contract_addr: vote_config.kpt_fund.clone(),
                msg: KptFundMsg::RefreshReward { account: user.clone() },
            },
        );
        let over: bool = match vote_config.total_minted.checked_add(reward) {
            Some(total) => total > vote_config.max_minted,
            None => true,
        };
        if over {
            reward = match vote_config.max_minted.checked_sub(vote_config.total_minted) {
                Some(v) => v,
                None => {
                    return Err(
                        ContractError::Std(
                            StdError::overflow(OverflowError { operation: OverflowOperation::Sub }),
                        ),
                    );
                },
            };
        }
        vote_config.total_minted = vote_config.total_minted + reward;
        store_vote_config(storage, &vote_config);
    }
    Ok(MintOrder { recipient: user.clone(), amount: reward, refresh_reward })
}

/// Decides a request to burn `amount` of `user`: who may ask, and what the
/// fund is told.
pub fn burn(storage: &Storage, sender: &Addr, user: &Addr, amount: u128) -> (r: Result<
    BurnOrder,
    ContractError,
>)
    ensures
        burn_ensures(storage, &r, sender, user, amount),
{
    let vote_config = read_vote_config(storage);
    if *sender != vote_config.kpt_fund && !is_minter(storage, sender) {
        return Err(ContractError::Unauthorized {  });
    }
    let mut refresh_reward: Option<FundOrder> = None;
    if *sender != vote_config.kpt_fund {
        refresh_reward = Some(
            FundOrder {
                contract_addr: vote_config.kpt_fund.clone(),
                msg: KptFundMsg::RefreshReward { account: user.clone() },
            },
        );
    }
    Ok(BurnOrder { owner: user.clone(), amount, refresh_reward })
}

} // verus!
