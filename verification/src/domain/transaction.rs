//! Transactions: one movement of money, with its direction.

use vstd::prelude::*;
use crate::domain::money::{Amount, Money};

verus! {

/// The direction of a movement.
#[derive(Debug, PartialEq, Eq, Clone, Copy, Structural)]
pub enum TransactionType {
    DEPOSIT,
    WITHDRAW,
}

/// The text of the error for a transaction of a negative amount.
pub open spec fn negative_amount_message() -> Seq<char> {
    "The amount cannot be negative"@
}

/// One movement: a magnitude that is never negative, the direction it moves
/// in, and a label that says when it happened.
#[derive(Debug)]
pub struct Transaction {
    pub amount: Money,
    pub operation: TransactionType,
    pub at: String,
}

impl Clone for Transaction {
    fn clone(&self) -> (r: Transaction)
        ensures
            r == *self,
    {
        Transaction { amount: self.amount.clone(), operation: self.operation, at: self.at.clone() }
    }
}

impl Transaction {
    /// The magnitude is a well-formed amount and not negative.
    pub open spec fn wf(&self) -> bool {
        self.amount.wf() && !self.amount@.is_negative()
    }

    /// The effect of the movement: its magnitude for a deposit, the negated
    /// magnitude for a withdrawal.
    pub open spec fn signed(&self) -> Amount {
        match self.operation {
            TransactionType::DEPOSIT => self.amount@,
            TransactionType::WITHDRAW => self.amount@.negated(),
        }
    }

    /// Whether the magnitude is a well-formed amount and not negative.
    pub fn is_well_formed(&self) -> (r: bool)
        ensures
            r == self.wf(),
    {
        self.amount.is_well_formed() && !self.amount.is_negative()
    }

    /// Records a movement of `amount`; refused exactly when `amount` is
    /// negative.
    pub fn new(amount: Money, operation: TransactionType, at: String) -> (r: Result<
        Transaction,
        String,
    >)
        ensures
            match r {
                Ok(transaction) => !amount@.is_negative() && transaction == (Transaction {
                    amount,
                    operation,
                    at,
                }),
                Err(message) => amount@.is_negative() && message@ == negative_amount_message(),
            },
    {
        if amount.is_negative() {
            return Err("The amount cannot be negative".to_owned());
        }
        Ok(Transaction { amount, operation, at })
    }

    /// The magnitude with the direction applied.
    pub fn signed_amount(&self) -> (r: Money)
        requires
            self.amount.wf(),
        ensures
            r.wf(),
            r@ == self.signed(),
    {
        match self.operation {
            TransactionType::DEPOSIT => self.amount.clone(),
            TransactionType::WITHDRAW => self.amount.negate(),
        }
    }
}

} // verus!
