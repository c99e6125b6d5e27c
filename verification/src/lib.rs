//! A single-currency ledger: exact decimal money, validated transactions,
//! balances folded from a history, and a wallet that keeps both in step.

pub mod decimal;
pub mod domain;
