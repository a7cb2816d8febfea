//! What the dispatcher keeps between operations.

use vstd::prelude::*;
use vstd::string::StrSliceExecFns;
use crate::addr::Addr;
use crate::math::Uint256;
use crate::pagination::{calc_range_start, page_limit, page_limit_spec, range_start_spec};
use crate::table::Table;

verus! {

/// The schedule and the caps, with the accounts that administer them.
#[derive(Debug)]
pub struct GlobalConfig {
    pub gov: Addr,
    pub claim_token: Addr,
    pub start_time: u64,
    pub end_regret_time: u64,
    pub regret_token_receiver: Addr,
    pub total_lock_amount: Uint256,
    pub total_unlock_amount: Uint256,
    pub start_lock_period_time: u64,
    pub duration_per_period: u64,
    pub periods: u64,
}

/// The running totals of what was registered and what was claimed.
#[derive(Clone, Copy, Debug, PartialEq, Eq, Structural)]
pub struct GlobalState {
    pub total_user_unlock_amount: Uint256,
    pub total_user_claimed_unlock_amount: Uint256,
    pub total_user_lock_amount: Uint256,
    pub total_user_claimed_lock_amount: Uint256,
}

/// One beneficiary's entitlement and how much of it was claimed.
#[derive(Debug)]
pub struct UserState {
    pub user: Addr,
    pub total_user_unlock_amount: Uint256,
    pub total_user_lock_amount: Uint256,
    pub claimed_unlock_amount: Uint256,
    pub claimed_lock_amount: Uint256,
    pub last_claimed_period: u64,
    pub user_per_lock_amount: Uint256,
    pub is_regret: bool,
    pub regret_time: u64,
}

/// The pool of what beneficiaries forfeited, claimed like one entitlement.
#[derive(Clone, Copy, Debug, PartialEq, Eq, Structural)]
pub struct RegretInfo {
    pub total_unlock_amount: Uint256,
    pub total_claimed_unlock_amount: Uint256,
    pub last_claimed_period: u64,
    pub per_lock_amount: Uint256,
    pub total_lock_amount: Uint256,
    pub total_claimed_lock_amount: Uint256,
}

/// Everything the dispatcher keeps: the configuration, the totals, the
/// beneficiaries' records by account, the pool, and the index of accounts that
/// queries page through.
pub struct Storage {
    pub global_config: GlobalConfig,
    pub global_state: GlobalState,
    pub user_states: Table<UserState>,
    pub regret_info: RegretInfo,
    pub user_page: Table<Addr>,
}

/// What the storage holds, as mathematics: the records and the index as maps
/// from the bytes of an account.
pub struct StorageView {
    pub global_config: GlobalConfig,
    pub global_state: GlobalState,
    pub user_states: Map<Seq<u8>, UserState>,
    pub regret_info: RegretInfo,
    pub user_page: Map<Seq<u8>, Addr>,
}

impl View for Storage {
    type V = StorageView;

    open spec fn view(&self) -> StorageView {
        StorageView {
            global_config: self.global_config,
            global_state: self.global_state,
            user_states: self.user_states.map(),
            regret_info: self.regret_info,
            user_page: self.user_page.map(),
        }
    }
}

impl StorageView {
    /// Whether a beneficiary is registered under the account: a record is
    /// filed under it, and the record names an account.
    pub open spec fn registered(&self, user: &Addr) -> bool {
        &&& self.user_states.contains_key(user.key())
        &&& self.user_states[user.key()].user@.len() > 0
    }

    /// Each account of the index is filed under its own bytes.
    pub open spec fn index_by_account(&self) -> bool {
        forall|k: Seq<u8>| #[trigger]
            self.user_page.contains_key(k) ==> self.user_page[k].key() == k
    }
}

impl Clone for GlobalConfig {
    fn clone(&self) -> (r: GlobalConfig)
        ensures
            r == *self,
    {
        GlobalConfig {
            gov: self.gov.clone(),
            claim_token: self.claim_token.clone(),
            start_time: self.start_time,
            end_regret_time: self.end_regret_time,
            regret_token_receiver: self.regret_token_receiver.clone(),
            total_lock_amount: self.total_lock_amount,
            total_unlock_amount: self.total_unlock_amount,
            start_lock_period_time: self.start_lock_period_time,
            duration_per_period: self.duration_per_period,
            periods: self.periods,
        }
    }
}

impl Clone for UserState {
    fn clone(&self) -> (r: UserState)
        ensures
            r == *self,
    {
        UserState {
            user: self.user.clone(),
            total_user_unlock_amount: self.total_user_unlock_amount,
            total_user_lock_amount: self.total_user_lock_amount,
            claimed_unlock_amount: self.claimed_unlock_amount,
            claimed_lock_amount: self.claimed_lock_amount,
            last_claimed_period: self.last_claimed_period,
            user_per_lock_amount: self.user_per_lock_amount,
            is_regret: self.is_regret,
            regret_time: self.regret_time,
        }
    }
}

impl GlobalConfig {
    /// The schedule has at least one period, and a period lasts at least a
    /// second.
    pub open spec fn wf(&self) -> bool {
        self.periods > 0 && self.duration_per_period > 0
    }

    /// Whether the schedule can be computed with.
    pub fn is_valid(&self) -> (r: bool)
        ensures
            r == self.wf(),
    {
        self.periods > 0 && self.duration_per_period > 0
    }
}

impl GlobalState {
    /// What was registered stays within the caps.
    pub open spec fn within(&self, config: &GlobalConfig) -> bool {
        &&& self.total_user_unlock_amount.value() <= config.total_unlock_amount.value()
        &&& self.total_user_lock_amount.value() <= config.total_lock_amount.value()
    }
}

impl UserState {
    /// Whether the record is the one that stands for an account without a
    /// record: no account, no amounts, nothing claimed.
    pub open spec fn is_blank(&self) -> bool {
        &&& self.user@.len() == 0
        &&& self.total_user_unlock_amount.value() == 0
        &&& self.total_user_lock_amount.value() == 0
        &&& self.claimed_unlock_amount.value() == 0
        &&& self.claimed_lock_amount.value() == 0
        &&& self.last_claimed_period == 0
        &&& self.user_per_lock_amount.value() == 0
        &&& !self.is_regret
        &&& self.regret_time == 0
    }

    /// Nothing is claimed beyond the entitlement.
    pub open spec fn claims_within(&self) -> bool {
        &&& self.claimed_unlock_amount.value() <= self.total_user_unlock_amount.value()
        &&& self.claimed_lock_amount.value() <= self.total_user_lock_amount.value()
    }
}

impl RegretInfo {
    /// The pool before anything was forfeited.
    pub open spec fn empty() -> RegretInfo {
        RegretInfo {
            total_unlock_amount: Uint256 { hi: 0, lo: 0 },
            total_claimed_unlock_amount: Uint256 { hi: 0, lo: 0 },
            last_claimed_period: 0,
            per_lock_amount: Uint256 { hi: 0, lo: 0 },
            total_lock_amount: Uint256 { hi: 0, lo: 0 },
            total_claimed_lock_amount: Uint256 { hi: 0, lo: 0 },
        }
    }

    /// Nothing is claimed from the pool beyond what was forfeited into it.
    pub open spec fn claims_within(&self) -> bool {
        &&& self.total_claimed_unlock_amount.value() <= self.total_unlock_amount.value()
        &&& self.total_claimed_lock_amount.value() <= self.total_lock_amount.value()
    }
}

impl Storage {
    /// The configuration can be computed with.
    pub open spec fn wf(&self) -> bool {
        self.global_config.wf()
    }

}

/// Keeps the configuration in place of the one before.
pub fn store_global_config(storage: &mut Storage, config: &GlobalConfig)
    ensures
        *final(storage) == (Storage { global_config: *config, ..*old(storage) }),
{
    storage.global_config = config.clone();
}

/// The configuration as it is kept.
pub fn read_global_config(storage: &Storage) -> (r: GlobalConfig)
    ensures
        r == storage.global_config,
{
    storage.global_config.clone()
}

/// Keeps the totals in place of those before.
pub fn store_global_state(storage: &mut Storage, state: &GlobalState)
    ensures
        *final(storage) == (Storage { global_state: *state, ..*old(storage) }),
{
    storage.global_state = *state;
}

/// The totals as they are kept.
pub fn read_global_state(storage: &Storage) -> (r: GlobalState)
    ensures
        r == storage.global_state,
{
    storage.global_state
}

/// Files the record under the account, in place of an earlier one.
pub fn store_user_state(storage: &mut Storage, user: &Addr, state: &UserState)
    ensures
        final(storage)@ == (StorageView {
            user_states: old(storage)@.user_states.insert(user.key(), *state),
            ..old(storage)@
        }),
        final(storage).user_page == old(storage).user_page,
{
    storage.user_states.insert(user.as_str().as_bytes_vec(), state.clone());
}

/// The record filed under the account, or the blank record where there is
/// none.
pub fn read_user_state(storage: &Storage, user: &Addr) -> (r: UserState)
    ensures
        storage@.user_states.contains_key(user.key()) ==> r == storage@.user_states[user.key()],
        !storage@.user_states.contains_key(user.key()) ==> r.is_blank(),
        (r.user@.len() > 0) == storage@.registered(user),
{
    match storage.user_states.get(user.as_bytes()) {
        Some(state) => state.clone(),
        None => {
            proof {
                reveal_strlit("");
            }
            UserState {
                user: Addr::unchecked(""),
                total_user_unlock_amount: Uint256::zero(),
                total_user_lock_amount: Uint256::zero(),
                claimed_unlock_amount: Uint256::zero(),
                claimed_lock_amount: Uint256::zero(),
                last_claimed_period: 0,
                user_per_lock_amount: Uint256::zero(),
                is_regret: false,
                regret_time: 0,
            }
        },
    }
}

/// Keeps the pool in place of the one before.
pub fn store_regret_info(storage: &mut Storage, info: &RegretInfo)
    ensures
        *final(storage) == (Storage { regret_info: *info, ..*old(storage) }),
{
    storage.regret_info = *info;
}

/// The pool as it is kept.
pub fn read_regret_info(storage: &Storage) -> (r: RegretInfo)
    ensures
        r == storage.regret_info,
{
    storage.regret_info
}

/// Enters the account in the index that queries page through, under its
/// own bytes: an index that files each account so stays such an index.
pub fn store_user_by_page(storage: &mut Storage, user: &Addr)
    ensures
        final(storage)@ == (StorageView {
            user_page: old(storage)@.user_page.insert(user.key(), *user),
            ..old(storage)@
        }),
        old(storage).user_page.contains(user.key()) ==> final(storage).user_page.keys() == old(
            storage,
        ).user_page.keys(),
        !old(storage).user_page.contains(user.key()) ==> final(storage).user_page.keys() == old(
            storage,
        ).user_page.keys().insert(
            crate::order::rank(old(storage).user_page.keys(), user.key()) as int,
            user.key(),
        ),
        final(storage).user_states == old(storage).user_states,
        old(storage)@.index_by_account() ==> final(storage)@.index_by_account(),
{
    storage.user_page.insert(user.as_str().as_bytes_vec(), user.clone());
    proof {
        let before = old(storage)@.user_page;
        let after = storage@.user_page;
        assert(after == before.insert(user.key(), *user));
        if old(storage)@.index_by_account() {
            assert forall|k: Seq<u8>| #[trigger] after.contains_key(k) implies after[k].key() == k by {
                if k != user.key() {
                    assert(before.contains_key(k));
                }
            }
        }
    }
}

/// The accounts of one page of the index, in ascending order of their bytes.
pub open spec fn user_page_of(storage: &Storage, start_after: Option<Addr>, limit: Option<u32>) -> Seq<
    (Seq<u8>, Addr),
> {
    storage.user_page.page_of(
        range_start_spec(
            match start_after {
                Some(a) => Some(a.key()),
                None => None,
            },
        ),
        page_limit_spec(limit),
    )
}

/// One page of the index of accounts: those that come after `start_after` in
/// the order of their bytes, or from the first where none is given, at most
/// as many as the page size for `limit`.
pub fn read_user_by_page(storage: &Storage, start_after: Option<Addr>, limit: Option<u32>) -> (r:
    Vec<Addr>)
    ensures
        r@.len() == user_page_of(storage, start_after, limit).len(),
        forall|i: int| 0 <= i < r@.len() ==> #[trigger] r@[i] == user_page_of(
            storage,
            start_after,
            limit,
        )[i].1,
{
    let start = calc_range_start(start_after.as_ref());
    let limit_n: usize = page_limit(limit);
    let found = storage.user_page.page(start.as_ref(), limit_n);
    let ghost want = user_page_of(storage, start_after, limit);
    let mut out: Vec<Addr> = Vec::new();
    let mut i: usize = 0;
    while i < found.len()
        invariant
            i <= found@.len(),
            found@.len() == want.len(),
            forall|j: int| 0 <= j < found@.len() ==> *(#[trigger] found@[j]) == want[j].1,
            out@.len() == i,
            forall|j: int| 0 <= j < i ==> #[trigger] out@[j] == want[j].1,
        decreases found@.len() - i,
    {
        out.push(found[i].clone());
        i += 1;
    }
    out
}

} // verus!
