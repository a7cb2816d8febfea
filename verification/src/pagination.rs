//! Page sizes and the key from which a page starts.

use vstd::prelude::*;
use crate::addr::Addr;

verus! {

/// The largest number of records that one page holds.
pub const MAX_LIMIT: u32 = 30;

/// The number of records on a page where the caller names none.
pub const DEFAULT_LIMIT: u32 = 10;

/// The page size for a request: the default where none is named, and else
/// the named size, raised to one or lowered to the maximum where it lies
/// outside.
pub open spec fn page_limit_spec(limit: Option<u32>) -> int {
    match limit {
        None => DEFAULT_LIMIT as int,
        Some(n) => if n < 1 {
            1
        } else if n > MAX_LIMIT {
            MAX_LIMIT as int
        } else {
            n as int
        },
    }
}

/// The key from which the page after `start_after` starts: the least key
/// after it, which is its bytes followed by a zero byte.
pub open spec fn range_start_spec(start_after: Option<Seq<u8>>) -> Option<Seq<u8>> {
    match start_after {
        Some(key) => Some(key.push(0)),
        None => None,
    }
}

/// The page size for a request.
pub fn page_limit(limit: Option<u32>) -> (r: usize)
    ensures
        r == page_limit_spec(limit),
        1 <= r <= MAX_LIMIT,
{
    match limit {
        None => DEFAULT_LIMIT as usize,
        Some(n) => if n < 1 {
            1
        } else if n > MAX_LIMIT {
            MAX_LIMIT as usize
        } else {
            n as usize
        },
    }
}

/// `calc_range_start` of cw_utils: for an account, its bytes followed by one
/// zero byte; nothing where no account is given.
#[verifier::external_body]
pub(crate) fn calc_range_start(start_after: Option<&Addr>) -> (r: Option<Vec<u8>>)
    ensures
        r is Some <==> start_after is Some,
        r is Some ==> r->Some_0@ == start_after->Some_0.key().push(0),
{
    match start_after {
        Some(addr) => cw_utils::calc_range_start(Some(cosmwasm_std::Addr::unchecked(&addr.text))),
        None => cw_utils::calc_range_start(None),
    }
}

/// `calc_range_start_string` of cw_utils: for a text, its bytes followed by
/// one zero byte; nothing where no text is given.
#[verifier::external_body]
pub(crate) fn calc_range_start_string(start_after: Option<String>) -> (r: Option<Vec<u8>>)
    ensures
        r is Some <==> start_after is Some,
        r is Some ==> r->Some_0@ == vstd::utf8::encode_utf8(start_after->Some_0@).push(0),
{
    cw_utils::calc_range_start_string(start_after)
}

} // verus!
