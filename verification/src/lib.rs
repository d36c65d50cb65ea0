//! A verified balance-ledger account program.
//!
//! A single fixed-layout record (initialization flag, 32-byte authority,
//! nonce, balance) lives in a byte buffer owned by an external storage
//! subsystem.  The record is manipulated exclusively through four
//! authorization-gated operations: initialize, top-up, fee-charging
//! transaction submission, and withdrawal.  Every operation validates all
//! participants before any mutation, and either applies its whole effect or
//! fails with a typed error and no effect at all.

pub mod account;
pub mod error;
pub mod identity;
pub mod instruction;
pub mod ledger;
pub mod processor;
pub mod state;
pub mod validation;
