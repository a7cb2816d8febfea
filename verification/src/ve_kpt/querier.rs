//! Questions about the vote token's configuration.

use vstd::prelude::*;
use crate::addr::Addr;
use crate::ve_kpt::msg::{IsMinterResponse, VoteConfigResponse};
use crate::ve_kpt::state::{is_minter, read_vote_config, Storage};

verus! {

/// The configuration as it is kept.
pub fn query_vote_config(storage: &Storage) -> (r: VoteConfigResponse)
    ensures
        r.max_supply == storage.vote_config.max_supply,
        r.kpt_fund == storage.vote_config.kpt_fund,
        r.gov == storage.vote_config.gov,
        r.max_minted == storage.vote_config.max_minted,
        r.total_minted == storage.vote_config.total_minted,
{
    let config = read_vote_config(storage);
    VoteConfigResponse {
        max_supply: config.max_supply,
        kpt_fund: config.kpt_fund,
        gov: config.gov,
        max_minted: config.max_minted,
        total_minted: config.total_minted,
    }
}

/// Whether the account may mint.
pub fn query_is_minter(storage: &Storage, minter: &Addr) -> (r: IsMinterResponse)
    ensures
        r.is_minter == storage.minter(minter),
{
    IsMinterResponse { is_minter: is_minter(storage, minter) }
}

} // verus!
