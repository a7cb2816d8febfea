//! Why an operation of the dispatcher is refused.

use vstd::prelude::*;
use crate::addr::Addr;
use crate::errors::{OverflowError, StdError};

verus! {

#[derive(Debug, PartialEq, Eq)]
pub enum ContractError {
    Std(StdError),
    OverflowError(OverflowError),
    Unauthorized {  },
    /// The amount to transfer needs more than 128 bits.
    ConversionOverflow {  },
    InvalidTotalLockAmount {  },
    InvalidTotalUnlockAmount {  },
    RegretTimeIsOver {  },
    RegretTokenReceiverNotSet {  },
    ClaimTimeIsNotArrived {  },
    RegretTimeNotStart {  },
    UserAlreadyExists(Addr),
    UserAmountIsZero(Addr),
    UserUnlockAmountTooLarge(Addr),
    UserLockAmountTooLarge(Addr),
    UserAlreadyRegret(Addr),
    UserAlreadyClaimed(Addr),
    UserNotExists(Addr),
    UserClaimLockAmountTooLarge(Addr),
    UserClaimUnlockAmountTooLarge(Addr),
}

} // verus!
