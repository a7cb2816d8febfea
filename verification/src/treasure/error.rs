//! Why an operation of the treasure is refused.

use vstd::prelude::*;
use crate::errors::{OverflowError, StdError};

verus! {

#[derive(Debug, PartialEq, Eq)]
pub enum ContractError {
    Std(StdError),
    /// A digest that is no hexadecimal number where one is read.
    ParseInt {  },
    OverflowError(OverflowError),
    Unauthorized {  },
    TreasureNotStart {  },
    TreasureEnd {  },
    InvalidLockToken {  },
    InvalidCw20HookMsg {  },
    InsufficientLockFunds {  },
    InsufficientIntegralFunds {  },
    InvalidMintNum {  },
}

} // verus!
