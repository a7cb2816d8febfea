//! The scale of the penalty.

use vstd::prelude::*;

verus! {

/// The penalty coefficient counts parts of this many.
pub const BASE_RATE_6: u128 = 1_000_000;

} // verus!
