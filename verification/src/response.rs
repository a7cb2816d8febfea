//! What a handler hands back for the environment to carry out.

use vstd::prelude::*;
use crate::addr::Addr;

verus! {

/// An instruction to the token ledger.
#[derive(Debug)]
pub enum TokenMsg {
    /// Move `amount` out of the contract's custody to `recipient`.
    Transfer { contract_addr: Addr, recipient: Addr, amount: u128 },
    /// Create `amount` for `recipient`; `contract` and `msg`, where both are
    /// given, name a contract to notify and what to tell it.
    Mint {
        contract_addr: Addr,
        recipient: Addr,
        amount: u128,
        contract: Option<String>,
        msg: Option<Vec<u8>>,
    },
}

/// The instructions that an operation emits, in order.
#[derive(Debug)]
pub struct Response {
    pub messages: Vec<TokenMsg>,
}

impl Response {
    /// A response without instructions.
    pub fn new() -> (r: Response)
        ensures
            r.messages@ == Seq::<TokenMsg>::empty(),
    {
        Response { messages: Vec::new() }
    }

    /// A response with the one instruction.
    pub fn with_message(msg: TokenMsg) -> (r: Response)
        ensures
            r.messages@ == seq![msg],
    {
        let mut messages: Vec<TokenMsg> = Vec::new();
        messages.push(msg);
        Response { messages }
    }
}

} // verus!
