//! The messages that come with transfers.
use vstd::prelude::*;

verus! {

/// An account on another chain that a transfer names.
#[derive(Debug, PartialEq, Eq)]
pub enum XccAccountId {
    /// An Aurora address as hex text, with or without a leading `0x`.
    Aurora(String),
}

/// Data that a deposit message carries; it holds nothing yet.
#[derive(Debug, PartialEq, Eq)]
pub struct FtDepositMessageData {}

/// The message of a token transfer to the contract.
#[derive(Debug, PartialEq, Eq)]
pub struct FtDepositMessage {
    /// The account to credit; without it the sender is credited.
    pub xcc_account_id: Option<XccAccountId>,
    pub data: FtDepositMessageData,
}

} // verus!
