use vstd::prelude::*;

verus! {

/// Creating the contract takes no parameters.
#[derive(Debug, PartialEq, Eq)]
pub struct InstantiateMsg {}

/// What a caller may ask the relay to do.
#[derive(Debug, PartialEq, Eq)]
pub enum ExecuteMsg {
    /// Decode `msg` as a JSON list of actions and re-dispatch all of them,
    /// in order, with the contract's address as sender.
    Execute { msg: Vec<u8> },
}

/// A read request. The relay defines no query, so a request carries nothing
/// and every one of them is refused.
#[derive(Debug, PartialEq, Eq)]
pub struct QueryMsg {}

} // verus!
