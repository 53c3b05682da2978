[package]
name = "near_deposit_withdraw"
version = "0.1.0"
edition = "2021"
publish = false

[dependencies]
hex = "0.4"
near-sdk = { version = "4.1.1", default-features = false }
near-contract-standards = { version = "4.1.1", default-features = false }
borsh = "0.9"
thiserror = "1"
