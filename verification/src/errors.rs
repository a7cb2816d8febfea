//! Error values shared by the contracts.

use vstd::prelude::*;

verus! {

/// The arithmetic operation that did not fit.
#[derive(Clone, Copy, Debug, PartialEq, Eq, Structural)]
pub enum OverflowOperation {
    Add,
    Sub,
    Mul,
}

/// An arithmetic result that does not fit the integer width.
#[derive(Clone, Copy, Debug, PartialEq, Eq, Structural)]
pub struct OverflowError {
    pub operation: OverflowOperation,
}

/// General failures: a message, a missing record, a division by zero.
#[derive(Debug, PartialEq, Eq)]
pub enum StdError {
    GenericErr { msg: String },
    NotFound { kind: String },
    Overflow { source: OverflowError },
    DivideByZero {  },
}

impl StdError {
    /// A failure described by a message only.
    pub fn generic_err(msg: &str) -> (r: StdError)
        ensures
            r == (StdError::GenericErr { msg: r->GenericErr_msg }),
            r->GenericErr_msg@ == msg@,
    {
        StdError::GenericErr { msg: msg.to_owned() }
    }

    /// The record of the given kind is missing.
    pub fn not_found(kind: &str) -> (r: StdError)
        ensures
            r == (StdError::NotFound { kind: r->NotFound_kind }),
            r->NotFound_kind@ == kind@,
    {
        StdError::NotFound { kind: kind.to_owned() }
    }

    /// An arithmetic result that does not fit.
    pub fn overflow(source: OverflowError) -> (r: StdError)
        ensures
            r == (StdError::Overflow { source }),
    {
        StdError::Overflow { source }
    }

    /// A division whose divisor is zero.
    pub fn divide_by_zero() -> (r: StdError)
        ensures
            r == (StdError::DivideByZero {  }),
    {
        StdError::DivideByZero {  }
    }
}

} // verus!
