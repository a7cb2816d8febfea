//! Questions about the Seilor token's configuration.

use vstd::prelude::*;
use crate::seilor::msg::SeilorConfigResponse;
use crate::seilor::state::{read_seilor_config, Storage};

verus! {

/// The configuration as it is kept.
pub fn query_seilor_config(storage: &Storage) -> (r: SeilorConfigResponse)
    ensures
        r.max_supply == storage.seilor_config.max_supply,
        r.fund == storage.seilor_config.fund,
        r.distribute == storage.seilor_config.distribute,
        r.gov == storage.seilor_config.gov,
{
    let config = read_seilor_config(storage);
    SeilorConfigResponse {
        max_supply: config.max_supply,
        fund: config.fund,
        distribute: config.distribute,
        gov: config.gov,
    }
}

} // verus!
