//! Verified core of a NEAR contract that keeps fungible-token balances for
//! NEAR accounts and Aurora (EVM) addresses: deposits register the account
//! that a transfer names, withdrawals check and debit the stored balance and
//! say which token transfer has to be sent.
pub mod account_id;
pub mod contract;
pub mod contract_account_id;
pub mod error;
pub mod hex_codec;
pub mod keyed_map;
pub mod types;
pub mod laws;
