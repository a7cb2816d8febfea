//! Why an operation on the rules is refused.

use vstd::prelude::*;
use crate::errors::{OverflowError, StdError};

verus! {

#[derive(Debug, PartialEq, Eq)]
pub enum ContractError {
    Std(StdError),
    OverflowError(OverflowError),
    Unauthorized {  },
    NotStartClaimTimeError {  },
    /// Nothing is left to claim. No handler returns it: a claim with nothing
    /// left goes through with nothing due.
    NoMoreAmountClaim {  },
    /// The amount claimed would pass the rule's total: the two amounts.
    AmountClaimOverTotal(u128, u128),
}

impl ContractError {
    /// Whether this is the general failure with the given message.
    pub open spec fn is_generic(&self, text: Seq<char>) -> bool {
        &&& *self is Std
        &&& self->Std_0 is GenericErr
        &&& self->Std_0->GenericErr_msg@ == text
    }

    /// Whether this is the failure for a missing record of the given kind.
    pub open spec fn is_not_found(&self, text: Seq<char>) -> bool {
        &&& *self is Std
        &&& self->Std_0 is NotFound
        &&& self->Std_0->NotFound_kind@ == text
    }
}

} // verus!
