//! Money: an exact decimal amount tagged with a currency.
//!
//! Every amount is held with four fractional digits, so its digits count
//! ten-thousandths of the currency's unit.

use vstd::prelude::*;
use vstd::std_specs::cmp::PartialEqSpecImpl;
use bigdecimal::BigDecimal;
use crate::decimal::{
    can_rescale, decimal_clone, decimal_difference, decimal_equal, decimal_fraction_digits,
    decimal_greater, decimal_neg, decimal_same, decimal_smaller, decimal_sum, decimal_with_scale,
    decimal_zero, fraction_digits, lemma_less_at_equal_scales, lemma_less_than_zero,
    lemma_rescaled_keeps_non_negative, lemma_rescaled_same_scale, pow10, rescaled,
    scales_within_reach, unscaled_digits, within_reach,
};

verus! {

/// The number of fractional digits that every amount is held with.
pub const MONEY_SCALE: i64 = 4;

/// The currencies that the ledger knows.
#[derive(Debug, PartialEq, Eq, Clone, Copy, Structural)]
pub enum Currency {
    USD,
    ARS,
}

/// What a `Money` stands for: a whole number of ten-thousandths in a currency.
pub struct Amount {
    pub units: int,
    pub currency: Currency,
}

impl Amount {
    /// Nothing, in `currency`.
    pub open spec fn zero(currency: Currency) -> Amount {
        Amount { units: 0, currency }
    }

    /// The same magnitude with the opposite sign.
    pub open spec fn negated(self) -> Amount {
        Amount { units: -self.units, currency: self.currency }
    }

    /// The sum, where the currencies agree.
    pub open spec fn plus(self, other: Amount) -> Option<Amount> {
        if self.currency == other.currency {
            Some(Amount { units: self.units + other.units, currency: self.currency })
        } else {
            None
        }
    }

    /// The difference, where the currencies agree.
    pub open spec fn minus(self, other: Amount) -> Option<Amount> {
        if self.currency == other.currency {
            Some(Amount { units: self.units - other.units, currency: self.currency })
        } else {
            None
        }
    }

    /// Strictly more units than `other`; the currencies are not looked at.
    pub open spec fn exceeds(self, other: Amount) -> bool {
        self.units > other.units
    }

    /// Strictly below zero.
    pub open spec fn is_negative(self) -> bool {
        self.units < 0
    }
}

/// The text of the error for two amounts of different currencies.
pub open spec fn currency_mismatch_message() -> Seq<char> {
    "Cannot add money with different currencies"@
}

/// An exact amount in one currency.
#[derive(Debug)]
pub struct Money {
    pub nominal_value: Box<BigDecimal>,
    pub currency: Currency,
}

impl View for Money {
    type V = Amount;

    /// The stored digits and the currency. For a well-formed `Money` the
    /// digits count ten-thousandths.
    open spec fn view(&self) -> Amount {
        Amount { units: unscaled_digits(*self.nominal_value), currency: self.currency }
    }
}

impl Clone for Money {
    fn clone(&self) -> (r: Money)
        ensures
            r == *self,
    {
        Money { nominal_value: Box::new(decimal_clone(&self.nominal_value)), currency: self.currency }
    }
}

impl PartialEq for Money {
    fn eq(&self, other: &Money) -> (r: bool) {
        self.currency == other.currency && within_reach(&self.nominal_value, &other.nominal_value)
            && decimal_equal(&self.nominal_value, &other.nominal_value)
    }
}

impl Eq for Money {
}

impl PartialEqSpecImpl for Money {
    open spec fn obeys_eq_spec() -> bool {
        true
    }

    /// Two amounts are equal when they stand for the same number in the same
    /// currency, however many fractional digits each is written with, as long
    /// as their scales are within reach of each other.
    open spec fn eq_spec(&self, other: &Money) -> bool {
        &&& self.currency == other.currency
        &&& scales_within_reach(*self.nominal_value, *other.nominal_value)
        &&& decimal_same(*self.nominal_value, *other.nominal_value)
    }
}

impl Money {
    /// The amount is held with exactly four fractional digits.
    pub open spec fn wf(&self) -> bool {
        fraction_digits(*self.nominal_value) == MONEY_SCALE
    }

    /// What `new` makes of a decimal: its digits at four fractional places,
    /// further places cut off towards zero.
    pub open spec fn normalized(amount: BigDecimal, currency: Currency) -> Amount {
        Amount {
            units: rescaled(unscaled_digits(amount), fraction_digits(amount), MONEY_SCALE as int),
            currency,
        }
    }

    /// Whether the amount is held with exactly four fractional digits.
    pub fn is_well_formed(&self) -> (r: bool)
        ensures
            r == self.wf(),
    {
        decimal_fraction_digits(&self.nominal_value) == MONEY_SCALE
    }

    /// Brings `amount` to four fractional digits and tags it with `currency`.
    pub fn new(amount: BigDecimal, currency: Currency) -> (r: Money)
        requires
            can_rescale(amount, MONEY_SCALE as int),
        ensures
            r.wf(),
            r@ == Money::normalized(amount, currency),
            unscaled_digits(amount) >= 0 ==> !r@.is_negative(),
    {
        let scaled = decimal_with_scale(&amount, MONEY_SCALE);
        proof {
            if unscaled_digits(amount) >= 0 {
                lemma_rescaled_keeps_non_negative(
                    unscaled_digits(amount),
                    fraction_digits(amount),
                    MONEY_SCALE as int,
                );
            }
        }
        Money { nominal_value: Box::new(scaled), currency }
    }

    /// `new`, for a decimal of which nothing is known: `None` where its scale
    /// lies too far from four for the decimal to be brought there.
    pub fn try_new(amount: BigDecimal, currency: Currency) -> (r: Option<Money>)
        ensures
            r.is_some() == can_rescale(amount, MONEY_SCALE as int),
            r.is_some() ==> r.unwrap().wf() && r.unwrap()@ == Money::normalized(amount, currency),
    {
        let scale: i64 = decimal_fraction_digits(&amount);
        if scale >= MONEY_SCALE - i64::MAX {
            Some(Money::new(amount, currency))
        } else {
            None
        }
    }

    /// Nothing, in `currency`.
    pub fn zero(currency: Currency) -> (r: Money)
        ensures
            r.wf(),
            r@ == Amount::zero(currency),
    {
        let nothing = decimal_zero();
        proof {
            vstd::arithmetic::mul::lemma_mul_basics(pow10(MONEY_SCALE as nat));
        }
        Money::new(nothing, currency)
    }

    /// The same magnitude with the opposite sign.
    pub fn negate(&self) -> (r: Money)
        requires
            self.wf(),
        ensures
            r.wf(),
            r@ == self@.negated(),
    {
        let opposite = decimal_neg(decimal_clone(&self.nominal_value));
        proof {
            lemma_rescaled_same_scale(unscaled_digits(opposite), MONEY_SCALE as int);
        }
        Money::new(opposite, self.currency)
    }

    /// The sum of two amounts of one currency; an error where the currencies
    /// differ.
    pub fn add(&self, another_money: &Money) -> (r: Result<Money, String>)
        requires
            self.wf(),
            another_money.wf(),
        ensures
            match r {
                Ok(sum) => sum.wf() && self@.plus(another_money@) == Some(sum@),
                Err(message) => self.currency != another_money.currency && message@
                    == currency_mismatch_message(),
            },
    {
        if self.currency != another_money.currency {
            return Err("Cannot add money with different currencies".to_owned());
        }
        let sum = decimal_sum(&self.nominal_value, &another_money.nominal_value);
        proof {
            lemma_rescaled_same_scale(unscaled_digits(sum), MONEY_SCALE as int);
        }
        Ok(Money::new(sum, self.currency))
    }

    /// The difference of two amounts of one currency, which may be negative;
    /// an error where the currencies differ.
    pub fn subtract(&self, another_money: &Money) -> (r: Result<Money, String>)
        requires
            self.wf(),
            another_money.wf(),
        ensures
            match r {
                Ok(difference) => difference.wf() && self@.minus(another_money@) == Some(
                    difference@,
                ),
                Err(message) => self.currency != another_money.currency && message@
                    == currency_mismatch_message(),
            },
    {
        if self.currency != another_money.currency {
            return Err("Cannot add money with different currencies".to_owned());
        }
        let difference = decimal_difference(&self.nominal_value, &another_money.nominal_value);
        proof {
            lemma_rescaled_same_scale(unscaled_digits(difference), MONEY_SCALE as int);
        }
        Ok(Money::new(difference, self.currency))
    }

    /// Whether this amount is strictly the larger number. The currencies are
    /// not compared.
    pub fn bigger_than(&self, another_money: &Money) -> (r: bool)
        requires
            self.wf(),
            another_money.wf(),
        ensures
            r == self@.exceeds(another_money@),
    {
        proof {
            lemma_less_at_equal_scales(*another_money.nominal_value, *self.nominal_value);
        }
        decimal_greater(&self.nominal_value, &another_money.nominal_value)
    }

    /// Whether the amount is strictly below zero.
    pub fn is_negative(&self) -> (r: bool)
        ensures
            r == self@.is_negative(),
    {
        let nothing = decimal_zero();
        proof {
            lemma_less_than_zero(*self.nominal_value, nothing);
        }
        decimal_smaller(&self.nominal_value, &nothing)
    }
}

/// Adding an amount to its own negation gives zero in the same currency.
pub proof fn law_add_negation_is_zero(m: Amount)
    ensures
        m.plus(m.negated()) == Some(Amount::zero(m.currency)),
{
}

/// Adding an amount and then subtracting it again gives back what one
/// started with.
pub proof fn law_add_then_subtract_round_trips(m: Amount, n: Amount)
    requires
        m.currency == n.currency,
    ensures
        m.plus(n).is_some(),
        m.plus(n).unwrap().minus(n) == Some(m),
{
}

/// Between two well-formed amounts `==` holds exactly when they have the same
/// units and the same currency.
pub proof fn law_equality_of_well_formed(m: Money, n: Money)
    requires
        m.wf(),
        n.wf(),
    ensures
        vstd::std_specs::cmp::PartialEqSpec::eq_spec(&m, &n) == (m@ == n@),
{
    assert(pow10(0) == 1);
}

/// Amounts of different currencies have neither a sum nor a difference.
pub proof fn law_currencies_do_not_mix(m: Amount, n: Amount)
    requires
        m.currency != n.currency,
    ensures
        m.plus(n).is_none(),
        m.minus(n).is_none(),
{
}

} // verus!
