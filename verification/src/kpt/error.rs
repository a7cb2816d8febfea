//! Why an operation of the KPT token is refused.

use vstd::prelude::*;
use crate::errors::StdError;

verus! {

#[derive(Debug, PartialEq, Eq)]
pub enum ContractError {
    Std(StdError),
    Unauthorized {  },
}

} // verus!
