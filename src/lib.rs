//! A relay contract: it decodes one request into an ordered batch of host
//! actions and hands them back to the host, to be run with the contract's own
//! address as sender.
pub mod contract;
pub mod error;
pub mod host;
pub mod msg;
