//! Questions about the KPT token's configuration.

use vstd::prelude::*;
use crate::kpt::msg::KptConfigResponse;
use crate::kpt::state::{read_kpt_config, Storage};

verus! {

/// The configuration as it is kept.
pub fn query_kpt_config(storage: &Storage) -> (r: KptConfigResponse)
    ensures
        r.max_supply == storage.kpt_config.max_supply,
        r.kpt_fund == storage.kpt_config.kpt_fund,
        r.kpt_distribute == storage.kpt_config.kpt_distribute,
        r.gov == storage.kpt_config.gov,
{
    let config = read_kpt_config(storage);
    KptConfigResponse {
        max_supply: config.max_supply,
        kpt_fund: config.kpt_fund,
        kpt_distribute: config.kpt_distribute,
        gov: config.gov,
    }
}

} // verus!
