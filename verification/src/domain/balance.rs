//! Balances: the net position that a history of transactions adds up to.

use vstd::prelude::*;
use crate::domain::money::{currency_mismatch_message, Amount, Currency, Money};
use crate::domain::transaction::Transaction;

verus! {

/// The text of the error for a withdrawal larger than the balance.
pub open spec fn insufficient_funds_message() -> Seq<char> {
    "The balance is not enough"@
}

/// Every transaction of `history` is well-formed and in `currency`.
pub open spec fn uniform_history(history: Seq<Transaction>, currency: Currency) -> bool {
    forall|i: int|
        0 <= i < history.len() ==> (#[trigger] history[i]).wf() && history[i].amount.currency
            == currency
}

/// The net of a history, in units: deposits count up, withdrawals down.
pub open spec fn net_units(history: Seq<Transaction>) -> int
    decreases history.len(),
{
    if history.len() == 0 {
        0
    } else {
        net_units(history.drop_last()) + history.last().signed().units
    }
}

/// What is left of `balance` once `magnitude` is taken out, or the text of
/// the refusal: the funds do not suffice, or the currencies differ.
pub open spec fn withdrawn(balance: Amount, magnitude: Amount) -> Result<Amount, Seq<char>> {
    if magnitude.exceeds(balance) {
        Err(insufficient_funds_message())
    } else {
        match balance.minus(magnitude) {
            Some(rest) => Ok(rest),
            None => Err(currency_mismatch_message()),
        }
    }
}

/// What `balance` grows to once `magnitude` is put in, or the text of the
/// refusal where the currencies differ.
pub open spec fn deposited(balance: Amount, magnitude: Amount) -> Result<Amount, Seq<char>> {
    match balance.plus(magnitude) {
        Some(total) => Ok(total),
        None => Err(currency_mismatch_message()),
    }
}

/// The net position in one currency.
#[derive(Debug)]
pub struct Balance {
    pub amount: Money,
    pub currency: Currency,
}

impl Clone for Balance {
    fn clone(&self) -> (r: Balance)
        ensures
            r == *self,
    {
        Balance { amount: self.amount.clone(), currency: self.currency }
    }
}

impl Balance {
    /// The amount is well-formed and in the balance's own currency.
    pub open spec fn wf(&self) -> bool {
        self.amount.wf() && self.amount.currency == self.currency
    }

    /// Whether every transaction of `history` is well-formed and in
    /// `currency`, so that the history can be added up.
    pub fn accepts(history: &Vec<Transaction>, currency: Currency) -> (r: bool)
        ensures
            r == uniform_history(history@, currency),
    {
        let mut i: usize = 0;
        while i < history.len()
            invariant
                i <= history@.len(),
                uniform_history(history@.take(i as int), currency),
            decreases history@.len() - i,
        {
            if !history[i].is_well_formed() || history[i].amount.currency != currency {
                return false;
            }
            proof {
                assert forall|j: int| 0 <= j < i + 1 implies (#[trigger] history@.take(i + 1)[j]).wf()
                    && history@.take(i + 1)[j].amount.currency == currency by {
                    if j < i {
                        assert(history@.take(i + 1)[j] == history@.take(i as int)[j]);
                    }
                }
            }
            i += 1;
        }
        proof {
            assert(history@.take(i as int) == history@);
        }
        true
    }

    /// Adds up a history from first to last, starting from zero.
    pub fn new(history: Vec<Transaction>, currency: Currency) -> (r: Balance)
        requires
            uniform_history(history@, currency),
        ensures
            r.wf(),
            r.currency == currency,
            r.amount@ == (Amount { units: net_units(history@), currency }),
            history@.len() == 0 ==> r.amount@ == Amount::zero(currency),
    {
        let mut amount = Money::zero(currency);
        let mut i: usize = 0;
        while i < history.len()
            invariant
                i <= history@.len(),
                uniform_history(history@, currency),
                amount.wf(),
                amount@ == (Amount { units: net_units(history@.take(i as int)), currency }),
            decreases history@.len() - i,
        {
            let movement = history[i].signed_amount();
            proof {
                assert(history@.take(i + 1).drop_last() == history@.take(i as int));
                assert(history@.take(i + 1).last() == history@[i as int]);
            }
            match amount.add(&movement) {
                Ok(sum) => {
                    amount = sum;
                },
                Err(_) => {
                    // The history is uniform, so the two currencies agree.
                    assert(false);
                },
            }
            i += 1;
        }
        proof {
            assert(history@.take(i as int) == history@);
        }
        Balance { amount, currency }
    }

    /// Takes the magnitude of `transaction` out of the balance. A withdrawal
    /// of the whole balance goes through; one of more is refused.
    pub fn withdraw(&self, transaction: Transaction) -> (r: Result<Balance, String>)
        requires
            self.wf(),
            transaction.wf(),
        ensures
            match r {
                Ok(rest) => rest.wf() && rest.currency == self.currency && withdrawn(
                    self.amount@,
                    transaction.amount@,
                ) == Ok::<Amount, Seq<char>>(rest.amount@),
                Err(message) => withdrawn(self.amount@, transaction.amount@) == Err::<
                    Amount,
                    Seq<char>,
                >(message@),
            },
    {
        if transaction.amount.bigger_than(&self.amount) {
            return Err("The balance is not enough".to_owned());
        }
        match self.amount.subtract(&transaction.amount) {
            Ok(amount) => Ok(Balance { amount, currency: self.currency }),
            Err(message) => Err(message),
        }
    }

    /// Puts the magnitude of `transaction` into the balance.
    pub fn deposit(&self, transaction: Transaction) -> (r: Result<Balance, String>)
        requires
            self.wf(),
            transaction.wf(),
        ensures
            match r {
                Ok(total) => total.wf() && total.currency == self.currency && deposited(
                    self.amount@,
                    transaction.amount@,
                ) == Ok::<Amount, Seq<char>>(total.amount@),
                Err(message) => deposited(self.amount@, transaction.amount@) == Err::<
                    Amount,
                    Seq<char>,
                >(message@),
            },
    {
        match self.amount.add(&transaction.amount) {
            Ok(amount) => Ok(Balance { amount, currency: self.currency }),
            Err(message) => Err(message),
        }
    }
}

/// An empty history nets to nothing.
pub proof fn law_empty_history_nets_zero()
    ensures
        net_units(Seq::<Transaction>::empty()) == 0,
{
}

/// One more transaction moves the net by its signed amount.
pub proof fn law_net_of_appended(history: Seq<Transaction>, transaction: Transaction)
    ensures
        net_units(history.push(transaction)) == net_units(history) + transaction.signed().units,
{
    assert(history.push(transaction).drop_last() == history);
}

/// Withdrawing exactly the balance leaves zero.
pub proof fn law_withdraw_whole_balance(balance: Amount)
    ensures
        withdrawn(balance, balance) == Ok::<Amount, Seq<char>>(Amount::zero(balance.currency)),
{
}

/// Withdrawing anything more than the balance is refused for want of funds.
pub proof fn law_withdraw_beyond_balance(balance: Amount, magnitude: Amount)
    requires
        magnitude.units > balance.units,
    ensures
        withdrawn(balance, magnitude) == Err::<Amount, Seq<char>>(insufficient_funds_message()),
{
}

} // verus!
