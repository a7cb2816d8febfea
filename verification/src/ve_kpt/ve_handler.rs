//! The votes' bookkeeping after the ledger has minted or burned.

use vstd::prelude::*;
use crate::addr::Addr;
use crate::errors::{OverflowError, OverflowOperation, StdError};
use crate::ve_kpt::state::{in_block_order, read_checkpoints_default, read_vote_config,
    store_checkpoints, Checkpoint, Storage};

verus! {

/// How a change of votes is applied to the votes before.
#[derive(Clone, Copy, Debug, PartialEq, Eq, Structural)]
pub enum WeightOp {
    Add,
    Subtract,
}

/// The votes of the last checkpoint, or none.
pub open spec fn last_votes(check_points: Seq<Checkpoint>) -> u128 {
    if check_points.len() == 0 {
        0
    } else {
        check_points.last().votes
    }
}

/// The votes after a change, as a number that may not fit.
pub open spec fn new_weight(op: WeightOp, old_weight: u128, delta: u128) -> int {
    match op {
        WeightOp::Add => old_weight + delta,
        WeightOp::Subtract => old_weight - delta,
    }
}

/// The operation that is reported where the votes after a change do not fit.
pub open spec fn failing(op: WeightOp) -> OverflowOperation {
    match op {
        WeightOp::Add => OverflowOperation::Add,
        WeightOp::Subtract => OverflowOperation::Sub,
    }
}

/// The checkpoints once new votes are written at a block: the last
/// checkpoint takes them where it is for block zero, and else a checkpoint
/// for the block is added.
pub open spec fn written(check_points: Seq<Checkpoint>, block_number: u64, votes: u128) -> Seq<
    Checkpoint,
> {
    if check_points.len() > 0 && check_points.last().from_block == 0 {
        check_points.update(check_points.len() - 1, Checkpoint { from_block: 0, votes })
    } else {
        check_points.push(Checkpoint { from_block: block_number, votes })
    }
}

/// Checkpoints in block order stay in block order when votes are written at
/// a block that is not before the last checkpoint's, and the votes written
/// are then the last.
pub proof fn law_written_in_block_order(check_points: Seq<Checkpoint>, block_number: u64, votes: u128)
    requires
        in_block_order(check_points),
        check_points.len() > 0 ==> check_points.last().from_block <= block_number,
    ensures
        in_block_order(written(check_points, block_number, votes)),
        last_votes(written(check_points, block_number, votes)) == votes,
        written(check_points, block_number, votes).len() >= check_points.len(),
{
    let after = written(check_points, block_number, votes);
    assert forall|i: int, j: int| 0 <= i <= j < after.len() implies (#[trigger] after[i]).from_block
        <= (#[trigger] after[j]).from_block by {
        if check_points.len() > 0 && check_points.last().from_block == 0 {
            if i < check_points.len() - 1 {
                assert(check_points[i].from_block <= check_points.last().from_block);
            }
        } else if j == check_points.len() && i < j {
            assert(check_points[i].from_block <= check_points.last().from_block);
        }
    }
}

/// The sum of two amounts of votes, or the overflow.
pub fn _add(a: u128, b: u128) -> (r: Result<u128, OverflowError>)
    ensures
        a + b <= u128::MAX ==> r == Ok::<u128, OverflowError>((a + b) as u128),
        a + b > u128::MAX ==> r == Err::<u128, OverflowError>(
            OverflowError { operation: OverflowOperation::Add },
        ),
{
    match a.checked_add(b) {
        Some(v) => Ok(v),
        None => Err(OverflowError { operation: OverflowOperation::Add }),
    }
}

/// The difference of two amounts of votes, or the overflow where the second
/// is the larger.
pub fn _subtract(a: u128, b: u128) -> (r: Result<u128, OverflowError>)
    ensures
        b <= a ==> r == Ok::<u128, OverflowError>((a - b) as u128),
        b > a ==> r == Err::<u128, OverflowError>(
            OverflowError { operation: OverflowOperation::Sub },
        ),
{
    match a.checked_sub(b) {
        Some(v) => Ok(v),
        None => Err(OverflowError { operation: OverflowOperation::Sub }),
    }
}

/// Writes the account's votes after a change of `delta` at a block, and
/// hands back the votes before and after. Where the votes after do not fit,
/// nothing is written.
pub fn _write_checkpoint(
    storage: &mut Storage,
    block_number: u64,
    account: &Addr,
    op: WeightOp,
    delta: u128,
) -> (r: Result<(u128, u128), OverflowError>)
    ensures
        ({
            let before = old(storage).checkpoints_of(account);
            let weight = new_weight(op, last_votes(before), delta);
            if 0 <= weight <= u128::MAX {
                &&& r == Ok::<(u128, u128), OverflowError>((last_votes(before), weight as u128))
                &&& final(storage).checkpoints_of(account) == written(
                    before,
                    block_number,
                    weight as u128,
                )
                &&& forall|other: Addr|
                    other.key() != account.key() ==> #[trigger] final(storage).checkpoints_of(&other)
                        == old(storage).checkpoints_of(&other)
                &&& final(storage).vote_config == old(storage).vote_config
                &&& final(storage).vote_info == old(storage).vote_info
                &&& final(storage).minters == old(storage).minters
            } else {
                &&& r == Err::<(u128, u128), OverflowError>(OverflowError { operation: failing(op) })
                &&& *final(storage) == *old(storage)
            }
        }),
{
    let mut check_points = read_checkpoints_default(storage, account);
    let pos: usize = check_points.len();
    let old_checkpoint = if pos == 0 {
        Checkpoint { from_block: 0, votes: 0 }
    } else {
        check_points[pos - 1]
    };
    let old_weight: u128 = old_checkpoint.votes;
    let new_weight: u128 = match op {
        WeightOp::Add => _add(old_weight, delta)?,
        WeightOp::Subtract => _subtract(old_weight, delta)?,
    };
    if pos > 0 && old_checkpoint.from_block == 0 {
        check_points.set(pos - 1, Checkpoint { from_block: 0, votes: new_weight });
    } else {
        check_points.push(Checkpoint { from_block: block_number, votes: new_weight });
    }
    store_checkpoints(storage, account, &check_points);
    Ok((old_weight, new_weight))
}

/// What is left to do after the ledger has minted `amount` for `recipient`
/// and its total supply has become `total_supply`: a supply above the limit
/// is refused, and else the recipient's votes are raised.
pub fn ve_mint(
    storage: &mut Storage,
    block_height: u64,
    recipient: &Addr,
    amount: u128,
    total_supply: u128,
) -> (r: Result<(), StdError>)
    ensures
        ({
            let before = old(storage).checkpoints_of(recipient);
            let weight = last_votes(before) + amount;
            if total_supply > old(storage).vote_config.max_supply {
                &&& r is Err
                &&& r->Err_0 is GenericErr
                &&& r->Err_0->GenericErr_msg@ == "total supply risks overflowing votes"@
                &&& *final(storage) == *old(storage)
            } else if weight > u128::MAX {
                &&& r == Err::<(), StdError>(
                    StdError::Overflow {
                        source: OverflowError { operation: OverflowOperation::Add },
                    },
                )
                &&& *final(storage) == *old(storage)
            } else {
                &&& r is Ok
                &&& final(storage).checkpoints_of(recipient) == written(
                    before,
                    block_height,
                    weight as u128,
                )
                &&& forall|other: Addr|
                    other.key() != recipient.key() ==> #[trigger] final(storage).checkpoints_of(
                        &other,
                    ) == old(storage).checkpoints_of(&other)
                &&& final(storage).vote_config == old(storage).vote_config
            }
        }),
{
    let max_supply: u128 = read_vote_config(storage).max_supply;
    if total_supply > max_supply {
        return Err(StdError::generic_err("total supply risks overflowing votes"));
    }
    match _write_checkpoint(storage, block_height, recipient, WeightOp::Add, amount) {
        Ok(_) => Ok(()),
        Err(e) => Err(StdError::overflow(e)),
    }
}

/// What is left to do after the ledger has burned `amount` of `owner`: the
/// owner's votes are lowered.
pub fn ve_burn(storage: &mut Storage, block_height: u64, owner: &Addr, amount: u128) -> (r: Result<
    (),
    StdError,
>)
    ensures
        ({
            let before = old(storage).checkpoints_of(owner);
            if amount > last_votes(before) {
                &&& r == Err::<(), StdError>(
                    StdError::Overflow {
                        source: OverflowError { operation: OverflowOperation::Sub },
                    },
                )
                &&& *final(storage) == *old(storage)
            } else {
                &&& r is Ok
                &&& final(storage).checkpoints_of(owner) == written(
                    before,
                    block_height,
                    (last_votes(before) - amount) as u128,
                )
                &&& forall|other: Addr|
                    other.key() != owner.key() ==> #[trigger] final(storage).checkpoints_of(&other)
                        == old(storage).checkpoints_of(&other)
                &&& final(storage).vote_config == old(storage).vote_config
            }
        }),
{
    match _write_checkpoint(storage, block_height, owner, WeightOp::Subtract, amount) {
        Ok(_) => Ok(()),
        Err(e) => Err(StdError::overflow(e)),
    }
}

} // verus!
