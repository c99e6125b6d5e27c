//! The wallet: a history of transactions and the balance it adds up to.

use vstd::prelude::*;
use crate::domain::balance::{
    deposited, law_net_of_appended, net_units, uniform_history, withdrawn, Balance,
};
use crate::domain::money::{Amount, Currency};
use crate::domain::transaction::{Transaction, TransactionType};

verus! {

/// A history in the order in which it happened, with its balance.
#[derive(Debug)]
pub struct Wallet {
    pub balance: Balance,
    pub movements: Vec<Transaction>,
}

impl Wallet {
    /// The currency that every wallet is kept in.
    pub open spec fn currency() -> Currency {
        Currency::USD
    }

    /// The history is well-formed and in the wallet's currency, and the
    /// balance is what the history adds up to.
    pub open spec fn wf(&self) -> bool {
        &&& self.balance.wf()
        &&& self.balance.currency == Wallet::currency()
        &&& uniform_history(self.movements@, Wallet::currency())
        &&& self.balance.amount@.units == net_units(self.movements@)
    }

    /// A wallet over `movements`, with the balance they add up to.
    pub fn new(movements: Vec<Transaction>) -> (r: Wallet)
        requires
            uniform_history(movements@, Wallet::currency()),
        ensures
            r.wf(),
            r.movements@ == movements@,
    {
        let history = copy_of(&movements);
        Wallet { balance: Balance::new(history, Currency::USD), movements }
    }

    /// The wallet with `transaction` appended and `precalculated_balance` in
    /// place of the balance. The receiver is left as it was.
    pub fn add_transaction(&self, transaction: Transaction, precalculated_balance: Balance) -> (r:
        Wallet)
        ensures
            r.movements@ == self.movements@.push(transaction),
            r.balance == precalculated_balance,
    {
        let mut transactions = copy_of(&self.movements);
        transactions.push(transaction);
        Wallet { balance: precalculated_balance, movements: transactions }
    }

    /// Takes the magnitude of `transaction` out of the wallet and records it.
    /// Refused, with nothing recorded, where the balance refuses it. A
    /// consistent wallet stays consistent when the transaction is marked a
    /// withdrawal.
    pub fn withdraw(&self, transaction: Transaction) -> (r: Result<Wallet, String>)
        requires
            self.balance.wf(),
            transaction.wf(),
        ensures
            match r {
                Ok(wallet) => wallet.movements@ == self.movements@.push(transaction)
                    && wallet.balance.wf() && wallet.balance.currency == self.balance.currency
                    && withdrawn(self.balance.amount@, transaction.amount@) == Ok::<
                    Amount,
                    Seq<char>,
                >(wallet.balance.amount@) && (self.wf() && transaction.operation
                    == TransactionType::WITHDRAW ==> wallet.wf()),
                Err(message) => withdrawn(self.balance.amount@, transaction.amount@) == Err::<
                    Amount,
                    Seq<char>,
                >(message@),
            },
    {
        match self.balance.withdraw(transaction.clone()) {
            Ok(resulting_balance) => {
                proof {
                    law_net_of_appended(self.movements@, transaction);
                }
                Ok(self.add_transaction(transaction, resulting_balance))
            },
            Err(message) => Err(message),
        }
    }

    /// Puts the magnitude of `transaction` into the wallet and records it.
    /// Refused, with nothing recorded, where the balance refuses it. A
    /// consistent wallet stays consistent when the transaction is marked a
    /// deposit.
    pub fn deposit(&self, transaction: Transaction) -> (r: Result<Wallet, String>)
        requires
            self.balance.wf(),
            transaction.wf(),
        ensures
            match r {
                Ok(wallet) => wallet.movements@ == self.movements@.push(transaction)
                    && wallet.balance.wf() && wallet.balance.currency == self.balance.currency
                    && deposited(self.balance.amount@, transaction.amount@) == Ok::<
                    Amount,
                    Seq<char>,
                >(wallet.balance.amount@) && (self.wf() && transaction.operation
                    == TransactionType::DEPOSIT ==> wallet.wf()),
                Err(message) => deposited(self.balance.amount@, transaction.amount@) == Err::<
                    Amount,
                    Seq<char>,
                >(message@),
            },
    {
        match self.balance.deposit(transaction.clone()) {
            Ok(resulting_balance) => {
                proof {
                    law_net_of_appended(self.movements@, transaction);
                }
                Ok(self.add_transaction(transaction, resulting_balance))
            },
            Err(message) => Err(message),
        }
    }
}

/// A copy of a history, transaction by transaction.
fn copy_of(movements: &Vec<Transaction>) -> (r: Vec<Transaction>)
    ensures
        r@ == movements@,
{
    let mut copy: Vec<Transaction> = Vec::new();
    let mut i: usize = 0;
    while i < movements.len()
        invariant
            i <= movements@.len(),
            copy@ == movements@.take(i as int),
        decreases movements@.len() - i,
    {
        copy.push(movements[i].clone());
        proof {
            assert(movements@.take(i + 1) == movements@.take(i as int).push(movements@[i as int]));
        }
        i += 1;
    }
    proof {
        assert(movements@.take(i as int) == movements@);
    }
    copy
}

} // verus!
