//! The value objects of the ledger, leaves first.

pub mod money;
pub mod transaction;
pub mod balance;
pub mod wallet;
