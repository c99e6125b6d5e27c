use bigdecimal::num_bigint::BigInt;
use bigdecimal::BigDecimal;
use ledger::domain::balance::Balance;
use ledger::domain::money::{Currency, Money};
use ledger::domain::transaction::{Transaction, TransactionType};
use ledger::domain::wallet::Wallet;

fn usd(value: i64) -> Money {
    Money::new(BigDecimal::from(value), Currency::USD)
}

fn movement(value: i64, operation: TransactionType, at: &str) -> Transaction {
    Transaction::new(usd(value), operation, String::from(at)).unwrap()
}

fn sample_history() -> Vec<Transaction> {
    vec![
        movement(50000, TransactionType::DEPOSIT, "yesterday"),
        movement(20000, TransactionType::WITHDRAW, "yesterday"),
        movement(10000, TransactionType::DEPOSIT, "today"),
        movement(70000, TransactionType::DEPOSIT, "today"),
    ]
}

#[test]
fn transaction_of_negative_amount_is_refused() {
    let result = Transaction::new(usd(-1), TransactionType::DEPOSIT, String::from("today"));
    assert_eq!(result.err(), Some(String::from("The amount cannot be negative")));
    let result = Transaction::new(usd(-1), TransactionType::WITHDRAW, String::from("today"));
    assert_eq!(result.err(), Some(String::from("The amount cannot be negative")));
}

#[test]
fn transaction_of_zero_or_more_is_accepted() {
    let zero = Transaction::new(usd(0), TransactionType::WITHDRAW, String::from("now")).unwrap();
    assert_eq!(zero.amount, usd(0));
    assert_eq!(zero.operation, TransactionType::WITHDRAW);
    assert_eq!(zero.at, "now");
    let some = Transaction::new(usd(15), TransactionType::DEPOSIT, String::from("later")).unwrap();
    assert_eq!(some.amount, usd(15));
    assert_eq!(some.operation, TransactionType::DEPOSIT);
    assert_eq!(some.at, "later");
}

#[test]
fn signed_amount_follows_the_direction() {
    let deposit = movement(30, TransactionType::DEPOSIT, "a");
    assert_eq!(deposit.signed_amount(), usd(30));
    let withdrawal = movement(30, TransactionType::WITHDRAW, "b");
    assert_eq!(withdrawal.signed_amount(), usd(-30));
    assert_eq!(withdrawal.amount, usd(30));
}

#[test]
fn transaction_clone_keeps_every_field() {
    let first = movement(30, TransactionType::WITHDRAW, "b");
    let second = first.clone();
    assert_eq!(second.amount, first.amount);
    assert_eq!(second.operation, first.operation);
    assert_eq!(second.at, first.at);
}

#[test]
fn balance_of_empty_history_is_zero() {
    let balance = Balance::new(Vec::new(), Currency::ARS);
    assert_eq!(balance.amount, Money::zero(Currency::ARS));
    assert_eq!(balance.currency, Currency::ARS);
    assert_eq!(balance.amount.nominal_value.as_bigint_and_exponent(), (BigInt::from(0), 4));
}

#[test]
fn balance_adds_up_the_history() {
    let balance = Balance::new(sample_history(), Currency::USD);
    assert_eq!(balance.amount, usd(110000));
    assert_eq!(balance.currency, Currency::USD);
    assert_eq!(balance.amount.nominal_value.to_string(), "110000.0000");
}

#[test]
fn balance_of_withdrawals_alone_is_negative() {
    let history = vec![
        movement(5, TransactionType::WITHDRAW, "a"),
        movement(7, TransactionType::WITHDRAW, "b"),
    ];
    let balance = Balance::new(history, Currency::USD);
    assert_eq!(balance.amount, usd(-12));
}

#[test]
fn withdrawing_the_whole_balance_leaves_zero() {
    let balance = Balance::new(vec![movement(100, TransactionType::DEPOSIT, "a")], Currency::USD);
    let rest = balance.withdraw(movement(100, TransactionType::WITHDRAW, "b")).unwrap();
    assert_eq!(rest.amount, Money::zero(Currency::USD));
    assert_eq!(rest.currency, Currency::USD);
    assert_eq!(balance.amount, usd(100));
}

#[test]
fn withdrawing_a_little_more_than_the_balance_is_refused() {
    let balance = Balance::new(vec![movement(100, TransactionType::DEPOSIT, "a")], Currency::USD);
    let amount = Money::new("100.0001".parse::<BigDecimal>().unwrap(), Currency::USD);
    let over = Transaction::new(amount, TransactionType::WITHDRAW, String::from("b")).unwrap();
    let result = balance.withdraw(over);
    assert_eq!(result.err(), Some(String::from("The balance is not enough")));
}

#[test]
fn balance_withdraw_subtracts_the_magnitude() {
    let balance = Balance::new(vec![movement(100, TransactionType::DEPOSIT, "a")], Currency::USD);
    let rest = balance.withdraw(movement(30, TransactionType::WITHDRAW, "b")).unwrap();
    assert_eq!(rest.amount, usd(70));
}

#[test]
fn balance_deposit_adds_the_magnitude() {
    let balance = Balance::new(vec![movement(100, TransactionType::DEPOSIT, "a")], Currency::USD);
    let total = balance.deposit(movement(30, TransactionType::DEPOSIT, "b")).unwrap();
    assert_eq!(total.amount, usd(130));
    assert_eq!(total.currency, Currency::USD);
    assert_eq!(balance.amount, usd(100));
}

#[test]
fn balance_refuses_another_currency() {
    let balance = Balance::new(vec![movement(100, TransactionType::DEPOSIT, "a")], Currency::USD);
    let pesos = Money::new(BigDecimal::from(10), Currency::ARS);
    let foreign = Transaction::new(pesos, TransactionType::DEPOSIT, String::from("b")).unwrap();
    assert_eq!(
        balance.deposit(foreign.clone()).err(),
        Some(String::from("Cannot add money with different currencies"))
    );
    assert_eq!(
        balance.withdraw(foreign).err(),
        Some(String::from("Cannot add money with different currencies"))
    );
}

#[test]
fn wallet_scenario_keeps_the_earlier_wallet() {
    let wallet = Wallet::new(sample_history());
    assert_eq!(wallet.balance.amount.nominal_value.to_string(), "110000.0000");
    assert_eq!(wallet.movements.len(), 4);

    let new_wallet = wallet.withdraw(movement(20000, TransactionType::WITHDRAW, "today")).unwrap();
    assert_eq!(new_wallet.balance.amount.nominal_value.to_string(), "90000.0000");
    assert_eq!(new_wallet.movements.len(), 5);
    assert_eq!(new_wallet.movements[4].amount, usd(20000));
    assert_eq!(new_wallet.movements[4].operation, TransactionType::WITHDRAW);
    assert_eq!(new_wallet.movements[0].amount, usd(50000));

    assert_eq!(wallet.balance.amount.nominal_value.to_string(), "110000.0000");
    assert_eq!(wallet.movements.len(), 4);
}

#[test]
fn wallet_overdraft_is_refused_and_changes_nothing() {
    let wallet = Wallet::new(vec![movement(100, TransactionType::DEPOSIT, "a")]);
    let result = wallet.withdraw(movement(150, TransactionType::WITHDRAW, "b"));
    assert_eq!(result.err(), Some(String::from("The balance is not enough")));
    assert_eq!(wallet.balance.amount, usd(100));
    assert_eq!(wallet.movements.len(), 1);
}

#[test]
fn wallet_deposit_appends_and_adds() {
    let wallet = Wallet::new(Vec::new());
    assert_eq!(wallet.balance.amount, Money::zero(Currency::USD));
    assert_eq!(wallet.balance.currency, Currency::USD);
    let first = wallet.deposit(movement(40, TransactionType::DEPOSIT, "a")).unwrap();
    let second = first.deposit(movement(2, TransactionType::DEPOSIT, "b")).unwrap();
    assert_eq!(second.balance.amount, usd(42));
    assert_eq!(second.movements.len(), 2);
    assert_eq!(second.movements[0].at, "a");
    assert_eq!(second.movements[1].at, "b");
    assert_eq!(first.movements.len(), 1);
    let recomputed = Balance::new(second.movements.clone(), Currency::USD);
    assert_eq!(recomputed.amount, second.balance.amount);
}

#[test]
fn wallet_add_transaction_stores_what_it_is_given() {
    let wallet = Wallet::new(vec![movement(100, TransactionType::DEPOSIT, "a")]);
    let balance = Balance::new(Vec::new(), Currency::USD);
    let next = wallet.add_transaction(movement(1, TransactionType::DEPOSIT, "b"), balance);
    assert_eq!(next.movements.len(), 2);
    assert_eq!(next.movements[1].amount, usd(1));
    assert_eq!(next.balance.amount, usd(0));
    assert_eq!(wallet.movements.len(), 1);
}

#[test]
fn balance_clone_is_equal() {
    let balance = Balance::new(sample_history(), Currency::USD);
    let copy = balance.clone();
    assert_eq!(copy.amount, balance.amount);
    assert_eq!(copy.currency, balance.currency);
}

#[test]
fn well_formed_checks_tell_the_scale_and_the_sign() {
    let plain = usd(3);
    assert!(plain.is_well_formed());
    let coarse = Money { nominal_value: Box::new(BigDecimal::from(3)), currency: Currency::USD };
    assert!(!coarse.is_well_formed());
    assert!(movement(3, TransactionType::DEPOSIT, "a").is_well_formed());
    let negative =
        Transaction { amount: usd(-3), operation: TransactionType::DEPOSIT, at: String::from("a") };
    assert!(!negative.is_well_formed());
    let unscaled =
        Transaction { amount: coarse, operation: TransactionType::DEPOSIT, at: String::from("a") };
    assert!(!unscaled.is_well_formed());
}

#[test]
fn accepts_tells_a_uniform_history() {
    assert!(Balance::accepts(&Vec::new(), Currency::ARS));
    assert!(Balance::accepts(&sample_history(), Currency::USD));
    assert!(!Balance::accepts(&sample_history(), Currency::ARS));
    let mut mixed = sample_history();
    let pesos = Money::new(BigDecimal::from(1), Currency::ARS);
    mixed.push(Transaction::new(pesos, TransactionType::DEPOSIT, String::from("b")).unwrap());
    assert!(!Balance::accepts(&mixed, Currency::USD));
}
