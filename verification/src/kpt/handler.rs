//! What is decided before the ledger is asked to mint or burn.

use vstd::prelude::*;
use crate::addr::{is_empty_str, Addr};
use crate::errors::StdError;
use crate::kpt::error::ContractError;
use crate::kpt::state::{read_kpt_config, store_kpt_config, KptConfig, Storage};
use crate::model_util::updated;
use crate::token::{is_notice, notice, BurnOrder, MintOrder};

verus! {

/// Why a request to mint is refused, if it is.
pub enum MintFailure {
    /// Neither a fund nor a distributor is configured.
    NotConfigured,
    /// The sender is neither the fund nor the distributor.
    Unauthorized,
}

/// Why a request of `sender` to mint is refused, if it is.
pub open spec fn mint_failure(config: &KptConfig, sender: &Addr) -> Option<MintFailure> {
    if config.kpt_fund@.len() == 0 && config.kpt_distribute@.len() == 0 {
        Some(MintFailure::NotConfigured)
    } else if sender@ != config.kpt_fund@ && sender@ != config.kpt_distribute@ {
        Some(MintFailure::Unauthorized)
    } else {
        None
    }
}

/// Replaces the fund, the governor and the distributor where the message
/// names them. Only the governor may.
pub fn update_config(
    storage: &mut Storage,
    sender: &Addr,
    kpt_fund: Option<Addr>,
    gov: Option<Addr>,
    kpt_distribute: Option<Addr>,
) -> (r: Result<(), ContractError>)
    ensures
        old(storage).kpt_config.gov@ != sender@ ==> r == Err::<(), ContractError>(
            ContractError::Unauthorized {  },
        ) && *final(storage) == *old(storage),
        old(storage).kpt_config.gov@ == sender@ ==> r is Ok && final(storage).kpt_config == (KptConfig {
            kpt_fund: updated(kpt_fund, old(storage).kpt_config.kpt_fund),
            gov: updated(gov, old(storage).kpt_config.gov),
            kpt_distribute: updated(kpt_distribute, old(storage).kpt_config.kpt_distribute),
            ..old(storage).kpt_config
        }),
{
    let mut config = read_kpt_config(storage);
    if *sender != config.gov {
        return Err(ContractError::Unauthorized {  });
    }
    if let Some(kpt_fund) = kpt_fund {
        config.kpt_fund = kpt_fund;
    }
    if let Some(gov) = gov {
        config.gov = gov;
    }
    if let Some(kpt_distribute) = kpt_distribute {
        config.kpt_distribute = kpt_distribute;
    }
    store_kpt_config(storage, &config);
    Ok(())
}

/// Decides a request to mint `amount` for `user`: only the fund and the
/// distributor may ask, and a contract that is named with a message for it
/// is told of the mint.
pub fn mint(
    storage: &Storage,
    sender: &Addr,
    user: &Addr,
    amount: u128,
    contract: Option<String>,
    msg: Option<Vec<u8>>,
) -> (r: Result<MintOrder, ContractError>)
    ensures
        match mint_failure(&storage.kpt_config, sender) {
            Some(MintFailure::NotConfigured) => r is Err && r->Err_0 is Std
                && r->Err_0->Std_0 is GenericErr && r->Err_0->Std_0->GenericErr_msg@
                == "mint contract not configured"@,
            Some(MintFailure::Unauthorized) => r == Err::<MintOrder, ContractError>(
                ContractError::Unauthorized {  },
            ),
            None => {
                &&& r is Ok
                &&& r->Ok_0.recipient == *user
                &&& r->Ok_0.amount == amount
                &&& is_notice(&r->Ok_0.notify, sender, amount, &contract, &msg)
            },
        },
{
    let config = read_kpt_config(storage);
    if is_empty_str(config.kpt_fund.as_str()) && is_empty_str(config.kpt_distribute.as_str()) {
        return Err(ContractError::Std(StdError::generic_err("mint contract not configured")));
    }
    if *sender != config.kpt_fund && *sender != config.kpt_distribute {
        return Err(ContractError::Unauthorized {  });
    }
    Ok(MintOrder { recipient: user.clone(), amount, notify: notice(sender, amount, contract, msg) })
}

/// Decides a request to burn `amount` of `user`: only the fund may ask.
pub fn burn(storage: &Storage, sender: &Addr, user: &Addr, amount: u128) -> (r: Result<
    BurnOrder,
    ContractError,
>)
    ensures
        sender@ != storage.kpt_config.kpt_fund@ ==> r == Err::<BurnOrder, ContractError>(
            ContractError::Unauthorized {  },
        ),
        sender@ == storage.kpt_config.kpt_fund@ ==> r == Ok::<BurnOrder, ContractError>(
            BurnOrder { owner: *user, amount },
        ),
{
    let config = read_kpt_config(storage);
    if *sender != config.kpt_fund {
        return Err(ContractError::Unauthorized {  });
    }
    Ok(BurnOrder { owner: user.clone(), amount })
}

} // verus!
