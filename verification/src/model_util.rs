//! Small notions that the contracts' state machines share.

use vstd::prelude::*;

verus! {

/// The value that an update leaves in a field: the new one where one is
/// given, and else the old one.
pub open spec fn updated<T>(new: Option<T>, current: T) -> T {
    match new {
        Some(v) => v,
        None => current,
    }
}

} // verus!
