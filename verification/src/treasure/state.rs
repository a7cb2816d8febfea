//! What the treasure keeps between operations.

use vstd::prelude::*;
use vstd::string::StrSliceExecFns;
use std::collections::HashSet;
use crate::addr::Addr;
use crate::errors::{OverflowError, OverflowOperation, StdError};
use crate::pagination::{calc_range_start_string, page_limit, page_limit_spec, range_start_spec};
use crate::table::Table;

verus! {

/// When tokens can be locked, what locking earns, what leaving early costs,
/// and how a draw is won.
#[derive(Debug)]
pub struct TreasureConfig {
    pub gov: Addr,
    pub lock_token: Addr,
    pub start_time: u64,
    pub end_time: u64,
    /// The points earned for each token locked.
    pub integral_reward_coefficient: u128,
    pub lock_duration: u64,
    /// The parts of a million that a withdrawal before the end of the lock
    /// loses.
    pub punish_coefficient: u128,
    /// The points that one draw costs.
    pub mint_nft_cost_integral: u128,
    pub winning_num: HashSet<u64>,
    pub mod_num: u64,
    pub punish_receiver: Addr,
}

/// The totals over all users.
#[derive(Clone, Copy, Debug, PartialEq, Eq, Structural)]
pub struct TreasureState {
    pub current_locked_amount: u128,
    pub current_integral_amount: u128,
    pub total_locked_amount: u128,
    pub total_withdraw_amount: u128,
    pub total_punish_amount: u128,
    pub total_win_nft_num: u64,
    pub total_lose_nft_num: u64,
}

/// One user's tokens, points and draws.
#[derive(Clone, Copy, Debug, PartialEq, Eq, Structural)]
pub struct TreasureUserState {
    pub current_locked_amount: u128,
    pub current_integral_amount: u128,
    pub win_nft_num: u64,
    pub lose_nft_num: u64,
    pub start_lock_time: u64,
    pub end_lock_time: u64,
    pub total_locked_amount: u128,
    pub total_withdraw_amount: u128,
    pub total_punish_amount: u128,
    pub total_cost_integral_amount: u128,
}

#[derive(Debug, PartialEq, Eq)]
pub struct UserLockRecord {
    pub record_id: u64,
    pub user_addr: Addr,
    pub lock_amount: u128,
    pub integral_reward_coefficient: u128,
    pub lock_duration: u64,
    pub start_lock_time: u64,
    pub end_lock_time: u64,
}

#[derive(Debug, PartialEq, Eq)]
pub struct UserWithdrawRecord {
    pub record_id: u64,
    pub user_addr: Addr,
    pub withdraw_amount: u128,
    pub withdraw_time: u64,
    pub punish_amount: u128,
}

#[derive(Debug, PartialEq, Eq)]
pub struct UserMintNftRecord {
    pub record_id: u64,
    pub user_addr: Addr,
    pub mint_nft_num: u64,
    pub win_nft_num: u64,
    pub mint_nft_cost_integral_amount: u128,
    pub mint_time: u64,
}

/// Everything the treasure keeps: the configuration, the totals, the users'
/// states by account, the number of the last record, and the records of
/// each kind by account and number.
pub struct Storage {
    pub treasure_config: TreasureConfig,
    pub treasure_state: TreasureState,
    pub treasure_user_state: Table<TreasureUserState>,
    pub record_index: u64,
    pub lock_records: Table<Table<UserLockRecord>>,
    pub withdraw_records: Table<Table<UserWithdrawRecord>>,
    pub mint_nft_records: Table<Table<UserMintNftRecord>>,
}

impl Clone for UserLockRecord {
    fn clone(&self) -> (r: UserLockRecord)
        ensures
            r == *self,
    {
        UserLockRecord {
            record_id: self.record_id,
            user_addr: self.user_addr.clone(),
            lock_amount: self.lock_amount,
            integral_reward_coefficient: self.integral_reward_coefficient,
            lock_duration: self.lock_duration,
            start_lock_time: self.start_lock_time,
            end_lock_time: self.end_lock_time,
        }
    }
}

impl Clone for UserWithdrawRecord {
    fn clone(&self) -> (r: UserWithdrawRecord)
        ensures
            r == *self,
    {
        UserWithdrawRecord {
            record_id: self.record_id,
            user_addr: self.user_addr.clone(),
            withdraw_amount: self.withdraw_amount,
            withdraw_time: self.withdraw_time,
            punish_amount: self.punish_amount,
        }
    }
}

impl Clone for UserMintNftRecord {
    fn clone(&self) -> (r: UserMintNftRecord)
        ensures
            r == *self,
    {
        UserMintNftRecord {
            record_id: self.record_id,
            user_addr: self.user_addr.clone(),
            mint_nft_num: self.mint_nft_num,
            win_nft_num: self.win_nft_num,
            mint_nft_cost_integral_amount: self.mint_nft_cost_integral_amount,
            mint_time: self.mint_time,
        }
    }
}

impl TreasureUserState {
    /// The state of a user that has locked nothing yet.
    pub open spec fn blank() -> TreasureUserState {
        TreasureUserState {
            current_locked_amount: 0,
            current_integral_amount: 0,
            win_nft_num: 0,
            lose_nft_num: 0,
            start_lock_time: 0,
            end_lock_time: 0,
            total_locked_amount: 0,
            total_withdraw_amount: 0,
            total_punish_amount: 0,
            total_cost_integral_amount: 0,
        }
    }
}

/// The eight bytes of a record's number, the most significant first.
pub open spec fn record_key(record_id: u64) -> Seq<u8> {
    Seq::new(8, |i: int| ((record_id as int / pow256(7 - i)) % 256) as u8)
}

/// 256 to the power `n`, for `n` up to seven.
pub open spec fn pow256(n: int) -> int {
    if n <= 0 {
        1
    } else if n == 1 {
        0x100
    } else if n == 2 {
        0x1_0000
    } else if n == 3 {
        0x100_0000
    } else if n == 4 {
        0x1_0000_0000
    } else if n == 5 {
        0x100_0000_0000
    } else if n == 6 {
        0x1_0000_0000_0000
    } else {
        0x100_0000_0000_0000
    }
}

/// The key under which a record with the given number is filed.
pub fn record_key_bytes(record_id: u64) -> (r: Vec<u8>)
    ensures
        r@ == record_key(record_id),
{
    let mut out: Vec<u8> = Vec::new();
    let mut divisor: u64 = 0x100_0000_0000_0000;
    let mut i: usize = 0;
    while i < 8
        invariant
            i <= 8,
            i < 8 ==> divisor == pow256(7 - i),
            out@.len() == i,
            forall|j: int| 0 <= j < i ==> out@[j] == record_key(record_id)[j],
        decreases 8 - i,
    {
        out.push(((record_id / divisor) % 256) as u8);
        if i < 7 {
            divisor = divisor / 256;
        }
        i += 1;
    }
    assert(out@ =~= record_key(record_id));
    out
}

impl Storage {
    /// The state of a user: the one filed under the account, or the blank
    /// one.
    pub open spec fn user_state_of(&self, user: &Addr) -> TreasureUserState {
        if self.treasure_user_state.map().contains_key(user.key()) {
            self.treasure_user_state.map()[user.key()]
        } else {
            TreasureUserState::blank()
        }
    }

    /// A user's lock records by number.
    pub open spec fn lock_records_of(&self, user: &Addr) -> Map<Seq<u8>, UserLockRecord> {
        if self.lock_records.map().contains_key(user.key()) {
            self.lock_records.map()[user.key()].map()
        } else {
            Map::empty()
        }
    }

    /// A user's withdrawal records by number.
    pub open spec fn withdraw_records_of(&self, user: &Addr) -> Map<Seq<u8>, UserWithdrawRecord> {
        if self.withdraw_records.map().contains_key(user.key()) {
            self.withdraw_records.map()[user.key()].map()
        } else {
            Map::empty()
        }
    }

    /// A user's draw records by number.
    pub open spec fn mint_nft_records_of(&self, user: &Addr) -> Map<Seq<u8>, UserMintNftRecord> {
        if self.mint_nft_records.map().contains_key(user.key()) {
            self.mint_nft_records.map()[user.key()].map()
        } else {
            Map::empty()
        }
    }
}

/// `HashSet::clone` of std: a set of the same numbers.
#[verifier::external_body]
pub(crate) fn clone_numbers(numbers: &HashSet<u64>) -> (r: HashSet<u64>)
    ensures
        r@ == numbers@,
{
    numbers.clone()
}

/// Whether two configurations say the same: the same winning numbers and
/// the same in every other field.
pub open spec fn same_config(a: &TreasureConfig, b: &TreasureConfig) -> bool {
    &&& a.gov == b.gov
    &&& a.lock_token == b.lock_token
    &&& a.start_time == b.start_time
    &&& a.end_time == b.end_time
    &&& a.integral_reward_coefficient == b.integral_reward_coefficient
    &&& a.lock_duration == b.lock_duration
    &&& a.punish_coefficient == b.punish_coefficient
    &&& a.mint_nft_cost_integral == b.mint_nft_cost_integral
    &&& a.winning_num@ == b.winning_num@
    &&& a.mod_num == b.mod_num
    &&& a.punish_receiver == b.punish_receiver
}

/// A copy of a configuration.
pub fn copy_config(config: &TreasureConfig) -> (r: TreasureConfig)
    ensures
        same_config(&r, config),
{
    TreasureConfig {
        gov: config.gov.clone(),
        lock_token: config.lock_token.clone(),
        start_time: config.start_time,
        end_time: config.end_time,
        integral_reward_coefficient: config.integral_reward_coefficient,
        lock_duration: config.lock_duration,
        punish_coefficient: config.punish_coefficient,
        mint_nft_cost_integral: config.mint_nft_cost_integral,
        winning_num: clone_numbers(&config.winning_num),
        mod_num: config.mod_num,
        punish_receiver: config.punish_receiver.clone(),
    }
}

/// Keeps the configuration in place of the one before.
pub fn store_treasure_config(storage: &mut Storage, data: &TreasureConfig)
    ensures
        same_config(&final(storage).treasure_config, data),
        *final(storage) == (Storage {
            treasure_config: final(storage).treasure_config,
            ..*old(storage)
        }),
{
    storage.treasure_config = copy_config(data);
}

/// The configuration as it is kept.
pub fn read_treasure_config(storage: &Storage) -> (r: TreasureConfig)
    ensures
        same_config(&r, &storage.treasure_config),
{
    copy_config(&storage.treasure_config)
}

/// Keeps the totals in place of those before.
pub fn store_treasure_state(storage: &mut Storage, data: &TreasureState)
    ensures
        *final(storage) == (Storage { treasure_state: *data, ..*old(storage) }),
{
    storage.treasure_state = *data;
}

/// The totals as they are kept.
pub fn read_treasure_state(storage: &Storage) -> (r: TreasureState)
    ensures
        r == storage.treasure_state,
{
    storage.treasure_state
}

/// Files the state under the account, in place of an earlier one.
pub fn store_treasure_user_state(storage: &mut Storage, user_addr: &Addr, user_state: &TreasureUserState)
    ensures
        final(storage).user_state_of(user_addr) == *user_state,
        final(storage).treasure_user_state.map() == old(storage).treasure_user_state.map().insert(
            user_addr.key(),
            *user_state,
        ),
        *final(storage) == (Storage {
            treasure_user_state: final(storage).treasure_user_state,
            ..*old(storage)
        }),
{
    storage.treasure_user_state.insert(user_addr.as_str().as_bytes_vec(), *user_state);
}

/// The state filed under the account, or the blank one.
pub fn read_treasure_user_state(storage: &Storage, user_addr: &Addr) -> (r: TreasureUserState)
    ensures
        r == storage.user_state_of(user_addr),
{
    match storage.treasure_user_state.get(user_addr.as_bytes()) {
        Some(state) => *state,
        None => TreasureUserState {
            current_locked_amount: 0,
            current_integral_amount: 0,
            win_nft_num: 0,
            lose_nft_num: 0,
            start_lock_time: 0,
            end_lock_time: 0,
            total_locked_amount: 0,
            total_withdraw_amount: 0,
            total_punish_amount: 0,
            total_cost_integral_amount: 0,
        },
    }
}

/// The number for the next record: one more than the last; the overflow
/// where there is none left.
pub fn generate_next_record_id(storage: &mut Storage) -> (r: Result<u64, StdError>)
    ensures
        old(storage).record_index < u64::MAX ==> r == Ok::<u64, StdError>(
            (old(storage).record_index + 1) as u64,
        ) && *final(storage) == (Storage {
            record_index: (old(storage).record_index + 1) as u64,
            ..*old(storage)
        }),
        old(storage).record_index == u64::MAX ==> r == Err::<u64, StdError>(
            StdError::Overflow { source: OverflowError { operation: OverflowOperation::Add } },
        ) && *final(storage) == *old(storage),
{
    match storage.record_index.checked_add(1) {
        Some(next) => {
            storage.record_index = next;
            Ok(next)
        },
        None => Err(StdError::overflow(OverflowError { operation: OverflowOperation::Add })),
    }
}

/// Files the record under its user and number.
pub fn store_user_lock_record(storage: &mut Storage, user_lock_record: &UserLockRecord)
    ensures
        final(storage).lock_records_of(&user_lock_record.user_addr) == old(storage).lock_records_of(
            &user_lock_record.user_addr,
        ).insert(record_key(user_lock_record.record_id), *user_lock_record),
        forall|other: Addr|
            other.key() != user_lock_record.user_addr.key() ==> #[trigger] final(storage).lock_records_of(&other) == old(storage).lock_records_of(&other),
        *final(storage) == (Storage { lock_records: final(storage).lock_records, ..*old(storage) }),
{
    let user = &user_lock_record.user_addr;
    let mut records = match storage.lock_records.remove(user.as_bytes()) {
        Some(records) => records,
        None => Table::new(),
    };
    records.insert(record_key_bytes(user_lock_record.record_id), user_lock_record.clone());
    storage.lock_records.insert(user.as_str().as_bytes_vec(), records);
}

/// Files the record under its user and number.
pub fn store_user_withdraw_record(storage: &mut Storage, user_withdraw_record: &UserWithdrawRecord)
    ensures
        final(storage).withdraw_records_of(&user_withdraw_record.user_addr) == old(storage).withdraw_records_of(&user_withdraw_record.user_addr).insert(
            record_key(user_withdraw_record.record_id),
            *user_withdraw_record,
        ),
        forall|other: Addr|
            other.key() != user_withdraw_record.user_addr.key() ==> #[trigger] final(storage).withdraw_records_of(&other) == old(storage).withdraw_records_of(&other),
        *final(storage) == (Storage {
            withdraw_records: final(storage).withdraw_records,
            ..*old(storage)
        }),
{
    let user = &user_withdraw_record.user_addr;
    let mut records = match storage.withdraw_records.remove(user.as_bytes()) {
        Some(records) => records,
        None => Table::new(),
    };
    records.insert(record_key_bytes(user_withdraw_record.record_id), user_withdraw_record.clone());
    storage.withdraw_records.insert(user.as_str().as_bytes_vec(), records);
}

/// Files the record under its user and number.
pub fn store_user_mint_nft_record(storage: &mut Storage, user_nft_record: &UserMintNftRecord)
    ensures
        final(storage).mint_nft_records_of(&user_nft_record.user_addr) == old(storage).mint_nft_records_of(&user_nft_record.user_addr).insert(
            record_key(user_nft_record.record_id),
            *user_nft_record,
        ),
        forall|other: Addr|
            other.key() != user_nft_record.user_addr.key() ==> #[trigger] final(storage).mint_nft_records_of(&other) == old(storage).mint_nft_records_of(&other),
        *final(storage) == (Storage {
            mint_nft_records: final(storage).mint_nft_records,
            ..*old(storage)
        }),
{
    let user = &user_nft_record.user_addr;
    let mut records = match storage.mint_nft_records.remove(user.as_bytes()) {
        Some(records) => records,
        None => Table::new(),
    };
    records.insert(record_key_bytes(user_nft_record.record_id), user_nft_record.clone());
    storage.mint_nft_records.insert(user.as_str().as_bytes_vec(), records);
}

/// The records of one page of a user's records of one kind, the record with
/// the largest number first: the last records, at most as many as the page
/// size for `limit`, none with a key before the one that follows
/// `start_after`.
pub open spec fn record_page_of<R>(
    records: &Table<Table<R>>,
    user: &Addr,
    start_after: Option<String>,
    limit: Option<u32>,
) -> Seq<(Seq<u8>, R)> {
    if records.map().contains_key(user.key()) {
        records.map()[user.key()].last_page_of(
            range_start_spec(
                match start_after {
                    Some(s) => Some(vstd::utf8::encode_utf8(s@)),
                    None => None,
                },
            ),
            page_limit_spec(limit),
        )
    } else {
        Seq::empty()
    }
}

/// One page of a user's lock records, the latest first.
pub fn read_user_lock_records(
    storage: &Storage,
    user_addr: &Addr,
    start_after: Option<String>,
    limit: Option<u32>,
) -> (r: Vec<UserLockRecord>)
    ensures
        r@.len() == record_page_of(&storage.lock_records, user_addr, start_after, limit).len(),
        forall|i: int|
            0 <= i < r@.len() ==> #[trigger] r@[i] == record_page_of(
                &storage.lock_records,
                user_addr,
                start_after,
                limit,
            )[i].1,
{
    let ghost want = record_page_of(&storage.lock_records, user_addr, start_after, limit);
    let mut out: Vec<UserLockRecord> = Vec::new();
    let limit_n: usize = page_limit(limit);
    let start = calc_range_start_string(start_after);
    match storage.lock_records.get(user_addr.as_bytes()) {
        Some(records) => {
            let found = records.last_page(start.as_ref(), limit_n);
            let mut i: usize = 0;
            while i < found.len()
                invariant
                    i <= found@.len(),
                    found@.len() == want.len(),
                    forall|j: int| 0 <= j < found@.len() ==> *(#[trigger] found@[j]) == want[j].1,
                    out@.len() == i,
                    forall|j: int| 0 <= j < i ==> #[trigger] out@[j] == want[j].1,
                decreases found@.len() - i,
            {
                out.push(found[i].clone());
                i += 1;
            }
        },
        None => {},
    }
    out
}

/// One page of a user's withdrawal records, the latest first.
pub fn read_user_withdraw_records(
    storage: &Storage,
    user_addr: &Addr,
    start_after: Option<String>,
    limit: Option<u32>,
) -> (r: Vec<UserWithdrawRecord>)
    ensures
        r@.len() == record_page_of(&storage.withdraw_records, user_addr, start_after, limit).len(),
        forall|i: int|
            0 <= i < r@.len() ==> #[trigger] r@[i] == record_page_of(
                &storage.withdraw_records,
                user_addr,
                start_after,
                limit,
            )[i].1,
{
    let ghost want = record_page_of(&storage.withdraw_records, user_addr, start_after, limit);
    let mut out: Vec<UserWithdrawRecord> = Vec::new();
    let limit_n: usize = page_limit(limit);
    let start = calc_range_start_string(start_after);
    match storage.withdraw_records.get(user_addr.as_bytes()) {
        Some(records) => {
            let found = records.last_page(start.as_ref(), limit_n);
            let mut i: usize = 0;
            while i < found.len()
                invariant
                    i <= found@.len(),
                    found@.len() == want.len(),
                    forall|j: int| 0 <= j < found@.len() ==> *(#[trigger] found@[j]) == want[j].1,
                    out@.len() == i,
                    forall|j: int| 0 <= j < i ==> #[trigger] out@[j] == want[j].1,
                decreases found@.len() - i,
            {
                out.push(found[i].clone());
                i += 1;
            }
        },
        None => {},
    }
    out
}

/// One page of a user's draw records, the latest first.
pub fn read_user_mint_nft_records(
    storage: &Storage,
    user_addr: &Addr,
    start_after: Option<String>,
    limit: Option<u32>,
) -> (r: Vec<UserMintNftRecord>)
    ensures
        r@.len() == record_page_of(&storage.mint_nft_records, user_addr, start_after, limit).len(),
        forall|i: int|
            0 <= i < r@.len() ==> #[trigger] r@[i] == record_page_of(
                &storage.mint_nft_records,
                user_addr,
                start_after,
                limit,
            )[i].1,
{
    let ghost want = record_page_of(&storage.mint_nft_records, user_addr, start_after, limit);
    let mut out: Vec<UserMintNftRecord> = Vec::new();
    let limit_n: usize = page_limit(limit);
    let start = calc_range_start_string(start_after);
    match storage.mint_nft_records.get(user_addr.as_bytes()) {
        Some(records) => {
            let found = records.last_page(start.as_ref(), limit_n);
            let mut i: usize = 0;
            while i < found.len()
                invariant
                    i <= found@.len(),
                    found@.len() == want.len(),
                    forall|j: int| 0 <= j < found@.len() ==> *(#[trigger] found@[j]) == want[j].1,
                    out@.len() == i,
                    forall|j: int| 0 <= j < i ==> #[trigger] out@[j] == want[j].1,
                decreases found@.len() - i,
            {
                out.push(found[i].clone());
                i += 1;
            }
        },
        None => {},
    }
    out
}

} // verus!
