//! Questions about the votes of an account now and at earlier blocks.

use vstd::prelude::*;
use crate::addr::Addr;
use crate::errors::StdError;
use crate::ve_kpt::msg::{GetPastTotalSupplyResponse, GetPastVotesResponse, GetVotesResponse,
    NumCheckpointsResponse};
use crate::ve_kpt::state::{in_block_order, lemma_taken_is, read_checkpoints_default,
    read_vote_info_default, votes_at, Checkpoint, Storage};
use crate::ve_kpt::ve_handler::last_votes;

verus! {

/// `Isqrt::isqrt` of cosmwasm_std on a `usize`: the integer square root, the
/// largest number whose square is not above `n`.
#[verifier::external_body]
fn isqrt(n: usize) -> (r: usize)
    ensures
        r * r <= n < (r + 1) * (r + 1),
{
    cosmwasm_std::Isqrt::isqrt(n)
}

/// The account's checkpoint at a position; refused where the account has
/// fewer.
pub fn checkpoints(storage: &Storage, account: &Addr, pos: u32) -> (r: Result<Checkpoint, StdError>)
    ensures
        pos < storage.checkpoints_of(account).len() ==> r == Ok::<Checkpoint, StdError>(
            storage.checkpoints_of(account)[pos as int],
        ),
        pos >= storage.checkpoints_of(account).len() ==> r is Err && r->Err_0 is GenericErr
            && r->Err_0->GenericErr_msg@ == "Position out of range"@,
{
    let checkpoints = read_checkpoints_default(storage, account);
    let _pos: usize = pos as usize;
    if _pos >= checkpoints.len() {
        return Err(StdError::generic_err("Position out of range"));
    }
    Ok(checkpoints[_pos])
}

/// The number of the account's checkpoints.
pub fn num_checkpoints(storage: &Storage, account: &Addr) -> (r: NumCheckpointsResponse)
    ensures
        r.num == storage.checkpoints_of(account).len(),
{
    let check_points = read_checkpoints_default(storage, account);
    NumCheckpointsResponse { num: check_points.len() }
}

/// The account's votes now: those of its last checkpoint, or none.
pub fn get_votes(storage: &Storage, account: &Addr) -> (r: GetVotesResponse)
    ensures
        r.votes == last_votes(storage.checkpoints_of(account)),
{
    let check_points = read_checkpoints_default(storage, account);
    if check_points.len() == 0 {
        return GetVotesResponse { votes: 0 };
    }
    GetVotesResponse { votes: check_points[check_points.len() - 1].votes }
}

/// The account's votes at the end of a block before the current one.
pub fn get_past_votes(storage: &Storage, current_height: u64, account: &Addr, block_number: u64) -> (r:
    Result<GetPastVotesResponse, StdError>)
    ensures
        r is Ok <==> block_number < current_height,
        r is Ok && in_block_order(storage.checkpoints_of(account)) ==> r->Ok_0.votes == votes_at(
            storage.checkpoints_of(account),
            block_number,
        ),
        r is Ok ==> r->Ok_0.votes == 0 || exists|i: int|
            0 <= i < storage.checkpoints_of(account).len() && (#[trigger] storage.checkpoints_of(
                account,
            )[i]).votes == r->Ok_0.votes,
        r is Err ==> r->Err_0 is GenericErr && r->Err_0->GenericErr_msg@ == "Block not yet mined"@,
{
    if block_number >= current_height {
        return Err(StdError::generic_err("Block not yet mined"));
    }
    let check_points = read_checkpoints_default(storage, account);
    let votes = _check_points_lookup(check_points, block_number);
    Ok(GetPastVotesResponse { votes })
}

/// The total supply at the end of a block before the current one.
pub fn get_past_total_supply(storage: &Storage, current_height: u64, block_number: u64) -> (r:
    Result<GetPastTotalSupplyResponse, StdError>)
    ensures
        r is Ok <==> block_number < current_height,
        r is Ok && in_block_order(storage.vote_info.total_supply_checkpoints@)
            ==> r->Ok_0.total_supply == votes_at(
            storage.vote_info.total_supply_checkpoints@,
            block_number,
        ),
        r is Err ==> r->Err_0 is GenericErr && r->Err_0->GenericErr_msg@ == "Block not yet mined"@,
{
    if block_number >= current_height {
        return Err(StdError::generic_err("Block not yet mined"));
    }
    let vote_info = read_vote_info_default(storage);
    let total_supply = _check_points_lookup(vote_info.total_supply_checkpoints, block_number);
    Ok(GetPastTotalSupplyResponse { total_supply })
}

/// The votes at the end of `block_number` in a list of checkpoints in block
/// order: those of the last checkpoint for that block or an earlier one, and
/// zero where there is none. Of a list that is not in block order the result
/// is zero or the votes of one of its checkpoints.
pub fn _check_points_lookup(check_points: Vec<Checkpoint>, block_number: u64) -> (r: u128)
    ensures
        in_block_order(check_points@) ==> r == votes_at(check_points@, block_number),
        r == 0 || exists|i: int| 0 <= i < check_points@.len() && (#[trigger] check_points@[i]).votes == r,
{
    let length: usize = check_points.len();
    let mut low: usize = 0;
    let mut high: usize = length;
    if length > 5 {
        let root: usize = isqrt(length);
        proof {
            assert(1 <= root <= length) by (nonlinear_arith)
                requires
                    root * root <= length < (root + 1) * (root + 1),
                    length > 5,
            ;
        }
        let mid: usize = length - root;
        if check_points[mid].from_block > block_number {
            high = mid;
        } else {
            low = mid + 1;
        }
    }
    while low < high
        invariant
            low <= high <= length,
            length == check_points@.len(),
            in_block_order(check_points@) ==> forall|j: int|
                0 <= j < low ==> (#[trigger] check_points@[j]).from_block <= block_number,
            in_block_order(check_points@) ==> forall|j: int|
                high <= j < length ==> (#[trigger] check_points@[j]).from_block > block_number,
        decreases high - low,
    {
        let mid: usize = low + (high - low) / 2;
        if check_points[mid].from_block > block_number {
            high = mid;
        } else {
            low = mid + 1;
        }
    }
    proof {
        if in_block_order(check_points@) {
            lemma_taken_is(check_points@, block_number, high as int);
        }
    }
    if high == 0 {
        return 0;
    }
    check_points[high - 1].votes
}

} // verus!
