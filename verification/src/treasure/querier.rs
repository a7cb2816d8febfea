//! The questions that the treasure answers without changing anything.

use vstd::prelude::*;
use crate::treasure::msg::{ConfigInfosResponse, QueryUserInfosMsg, UserInfosResponse};
use crate::treasure::state::{read_treasure_config, read_treasure_state,
    read_treasure_user_state, read_user_lock_records, read_user_mint_nft_records,
    read_user_withdraw_records, record_page_of, same_config, Storage};

verus! {

/// The configuration and the totals as they are kept.
pub fn query_config_infos(storage: &Storage) -> (r: ConfigInfosResponse)
    ensures
        same_config(&r.config, &storage.treasure_config),
        r.state == storage.treasure_state,
{
    let config = read_treasure_config(storage);
    let state = read_treasure_state(storage);
    ConfigInfosResponse { config, state }
}

/// Whether `r` answers what is asked about a user: each part where it is
/// asked for and only there, the state as filed, the records page by page.
pub open spec fn user_infos_ensures(storage: &Storage, msg: &QueryUserInfosMsg, r: &UserInfosResponse) -> bool {
    let locks = record_page_of(&storage.lock_records, &msg.user_addr, msg.start_after, msg.limit);
    let withdrawals = record_page_of(
        &storage.withdraw_records,
        &msg.user_addr,
        msg.start_after,
        msg.limit,
    );
    let draws = record_page_of(
        &storage.mint_nft_records,
        &msg.user_addr,
        msg.start_after,
        msg.limit,
    );
    &&& r.user_state is Some <==> msg.query_user_state
    &&& r.user_state is Some ==> r.user_state->Some_0 == storage.user_state_of(&msg.user_addr)
    &&& r.lock_records is Some <==> msg.query_lock_records
    &&& r.lock_records is Some ==> {
        &&& r.lock_records->Some_0@.len() == locks.len()
        &&& forall|i: int|
            0 <= i < locks.len() ==> (#[trigger] r.lock_records->Some_0@[i]) == locks[i].1
    }
    &&& r.withdraw_records is Some <==> msg.query_withdraw_records
    &&& r.withdraw_records is Some ==> {
        &&& r.withdraw_records->Some_0@.len() == withdrawals.len()
        &&& forall|i: int|
            0 <= i < withdrawals.len() ==> (#[trigger] r.withdraw_records->Some_0@[i])
                == withdrawals[i].1
    }
    &&& r.mint_nft_records is Some <==> msg.query_mint_nft_records
    &&& r.mint_nft_records is Some ==> {
        &&& r.mint_nft_records->Some_0@.len() == draws.len()
        &&& forall|i: int|
            0 <= i < draws.len() ==> (#[trigger] r.mint_nft_records->Some_0@[i]) == draws[i].1
    }
}

/// What is asked for about a user: its state, and one page of its records
/// of each kind, the latest first.
pub fn query_user_infos(storage: &Storage, msg: QueryUserInfosMsg) -> (r: UserInfosResponse)
    ensures
        user_infos_ensures(storage, &msg, &r),
{
    let mut user_state = None;
    let mut lock_records = None;
    let mut withdraw_records = None;
    let mut mint_nft_records = None;
    if msg.query_user_state {
        user_state = Some(read_treasure_user_state(storage, &msg.user_addr));
    }
    if msg.query_lock_records {
        lock_records = Some(
            read_user_lock_records(storage, &msg.user_addr, msg.start_after.clone(), msg.limit),
        );
    }
    if msg.query_withdraw_records {
        withdraw_records = Some(
            read_user_withdraw_records(storage, &msg.user_addr, msg.start_after.clone(), msg.limit),
        );
    }
    if msg.query_mint_nft_records {
        mint_nft_records = Some(
            read_user_mint_nft_records(storage, &msg.user_addr, msg.start_after.clone(), msg.limit),
        );
    }
    UserInfosResponse { user_state, lock_records, withdraw_records, mint_nft_records }
}

} // verus!
