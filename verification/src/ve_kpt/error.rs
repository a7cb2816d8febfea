//! Why an operation of the vote token is refused.

use vstd::prelude::*;
use crate::errors::StdError;

verus! {

#[derive(Debug, PartialEq, Eq)]
pub enum ContractError {
    Std(StdError),
    Unauthorized {  },
    InvalidInput {  },
    /// The token is created without balances; the creation message names
    /// some.
    UnableInitialBalances {  },
}

} // verus!
