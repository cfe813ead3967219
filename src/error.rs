use cosmwasm_std::StdError;
use vstd::prelude::*;

verus! {

/// Why an entry point failed. Every error aborts the whole invocation.
#[derive(Debug)]
pub enum ContractError {
    /// The request is no encoding of a list of actions.
    Decode(StdError),
    /// Recording the contract's identity in storage failed.
    Storage(StdError),
    /// The contract answers no query.
    Unimplemented,
}

} // verus!
