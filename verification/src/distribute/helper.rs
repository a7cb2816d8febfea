//! The scale of the linear rate.

use vstd::prelude::*;

verus! {

/// The factor by which the amount released per second is scaled, so that the
/// division by the duration loses little.
pub const BASE_RATE_12: u128 = 1_000_000_000_000;

} // verus!
