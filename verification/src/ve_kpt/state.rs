//! What the vote token keeps between operations.

use vstd::prelude::*;
use vstd::string::StrSliceExecFns;
use crate::addr::Addr;
use crate::table::Table;

verus! {

/// The votes that an account holds from a block on.
#[derive(Clone, Copy, Debug, PartialEq, Eq, Structural)]
pub struct Checkpoint {
    pub from_block: u64,
    pub votes: u128,
}

/// The total supply block by block.
#[derive(Debug)]
pub struct VoteInfo {
    pub total_supply_checkpoints: Vec<Checkpoint>,
}

/// The limits of the supply and of what minters may mint, with the accounts
/// that administer them.
#[derive(Debug)]
pub struct VoteConfig {
    pub max_supply: u128,
    pub kpt_fund: Addr,
    pub gov: Addr,
    pub max_minted: u128,
    pub total_minted: u128,
}

/// Everything the vote token keeps besides the ledger: the configuration,
/// each account's checkpoints, the supply's checkpoints, and who may mint.
pub struct Storage {
    pub vote_config: VoteConfig,
    pub check_points: Table<Vec<Checkpoint>>,
    pub vote_info: VoteInfo,
    pub minters: Table<bool>,
}

impl Clone for VoteConfig {
    fn clone(&self) -> (r: VoteConfig)
        ensures
            r == *self,
    {
        VoteConfig {
            max_supply: self.max_supply,
            kpt_fund: self.kpt_fund.clone(),
            gov: self.gov.clone(),
            max_minted: self.max_minted,
            total_minted: self.total_minted,
        }
    }
}

impl Storage {
    /// The checkpoints of an account: those filed under it, or none.
    pub open spec fn checkpoints_of(&self, account: &Addr) -> Seq<Checkpoint> {
        if self.check_points.map().contains_key(account.key()) {
            self.check_points.map()[account.key()]@
        } else {
            Seq::empty()
        }
    }

    /// Whether the account may mint: what is filed under it, or no.
    pub open spec fn minter(&self, account: &Addr) -> bool {
        self.minters.map().contains_key(account.key()) && self.minters.map()[account.key()]
    }
}

/// A copy of a list of checkpoints.
pub fn copy_checkpoints(check_points: &Vec<Checkpoint>) -> (r: Vec<Checkpoint>)
    ensures
        r@ == check_points@,
{
    let mut out: Vec<Checkpoint> = Vec::new();
    let mut i: usize = 0;
    while i < check_points.len()
        invariant
            i <= check_points@.len(),
            out@ == check_points@.take(i as int),
        decreases check_points@.len() - i,
    {
        out.push(check_points[i]);
        proof {
            assert(out@ =~= check_points@.take(i + 1));
        }
        i += 1;
    }
    proof {
        assert(check_points@.take(i as int) =~= check_points@);
    }
    out
}

/// Files the checkpoints under the account, in place of earlier ones.
pub fn store_checkpoints(storage: &mut Storage, delegator: &Addr, checkpoints: &Vec<Checkpoint>)
    ensures
        final(storage).checkpoints_of(delegator) == checkpoints@,
        forall|other: Addr|
            other.key() != delegator.key() ==> #[trigger] final(storage).checkpoints_of(&other)
                == old(storage).checkpoints_of(&other),
        final(storage).vote_config == old(storage).vote_config,
        final(storage).vote_info == old(storage).vote_info,
        final(storage).minters == old(storage).minters,
{
    storage.check_points.insert(delegator.as_str().as_bytes_vec(), copy_checkpoints(checkpoints));
}

/// The checkpoints filed under the account, or none.
pub fn read_checkpoints_default(storage: &Storage, delegator: &Addr) -> (r: Vec<Checkpoint>)
    ensures
        r@ == storage.checkpoints_of(delegator),
{
    match storage.check_points.get(delegator.as_bytes()) {
        Some(check_points) => copy_checkpoints(check_points),
        None => Vec::new(),
    }
}

/// The supply's checkpoints.
pub fn read_vote_info_default(storage: &Storage) -> (r: VoteInfo)
    ensures
        r.total_supply_checkpoints@ == storage.vote_info.total_supply_checkpoints@,
{
    VoteInfo { total_supply_checkpoints: copy_checkpoints(&storage.vote_info.total_supply_checkpoints) }
}

/// Keeps the configuration in place of the one before.
pub fn store_vote_config(storage: &mut Storage, vote_config: &VoteConfig)
    ensures
        *final(storage) == (Storage { vote_config: *vote_config, ..*old(storage) }),
{
    storage.vote_config = vote_config.clone();
}

/// The configuration as it is kept.
pub fn read_vote_config(storage: &Storage) -> (r: VoteConfig)
    ensures
        r == storage.vote_config,
{
    storage.vote_config.clone()
}

/// Records whether the account may mint.
pub fn store_minters(storage: &mut Storage, minter: &Addr, is_minter: bool)
    ensures
        final(storage).minters.map() == old(storage).minters.map().insert(minter.key(), is_minter),
        final(storage).vote_config == old(storage).vote_config,
        final(storage).vote_info == old(storage).vote_info,
        final(storage).check_points == old(storage).check_points,
{
    storage.minters.insert(minter.as_str().as_bytes_vec(), is_minter);
}

/// Whether the account may mint.
pub fn is_minter(storage: &Storage, minter: &Addr) -> (r: bool)
    ensures
        r == storage.minter(minter),
{
    match storage.minters.get(minter.as_bytes()) {
        Some(flag) => *flag,
        None => false,
    }
}

/// Whether no checkpoint is for an earlier block than the one before it.
pub open spec fn in_block_order(check_points: Seq<Checkpoint>) -> bool {
    forall|i: int, j: int|
        0 <= i <= j < check_points.len() ==> (#[trigger] check_points[i]).from_block <= (
        #[trigger] check_points[j]).from_block
}

/// How many checkpoints at the front are for `block_number` or an earlier
/// block. Among checkpoints in block order these are all that are.
pub open spec fn taken_by(check_points: Seq<Checkpoint>, block_number: u64) -> nat
    decreases check_points.len(),
{
    if check_points.len() == 0 {
        0
    } else if check_points[0].from_block <= block_number {
        1 + taken_by(check_points.drop_first(), block_number)
    } else {
        0
    }
}

/// The votes at the end of a block: those of the last checkpoint for that
/// block or an earlier one, and none where there is no such checkpoint.
pub open spec fn votes_at(check_points: Seq<Checkpoint>, block_number: u64) -> u128 {
    let taken = taken_by(check_points, block_number);
    if taken == 0 {
        0
    } else {
        check_points[taken - 1].votes
    }
}

/// Among checkpoints in block order, the number taken by a block is the one
/// position with only blocks up to it before and a later block at it.
pub proof fn lemma_taken_is(check_points: Seq<Checkpoint>, block_number: u64, p: int)
    requires
        0 <= p <= check_points.len(),
        forall|j: int| 0 <= j < p ==> (#[trigger] check_points[j]).from_block <= block_number,
        p < check_points.len() ==> check_points[p].from_block > block_number,
    ensures
        taken_by(check_points, block_number) == p,
    decreases check_points.len(),
{
    if check_points.len() > 0 && p > 0 {
        let rest = check_points.drop_first();
        assert(check_points[0].from_block <= block_number);
        assert forall|j: int| 0 <= j < p - 1 implies (#[trigger] rest[j]).from_block
            <= block_number by {
            assert(rest[j] == check_points[j + 1]);
        }
        if p - 1 < rest.len() {
            assert(rest[p - 1] == check_points[p]);
        }
        lemma_taken_is(rest, block_number, p - 1);
    }
}

} // verus!
