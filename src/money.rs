use vstd::prelude::*;

use crate::bank::Bank;
use crate::error::MoneyError;
use crate::expression::{sum_of, Expression, Sum};

verus! {

/// An amount of money in one currency. No operation changes a `Money`: each
/// one builds a new value. Arithmetic that would leave the range of `u32`
/// fails with `MoneyError::ArithmeticOverflow` instead of wrapping.
#[derive(Debug, PartialEq)]
pub struct Money {
    pub amount: u32,
    pub currency: String,
}

impl Money {
    /// `amount` in the currency labelled `currency`.
    pub fn new(amount: u32, currency: &str) -> (r: Money)
        ensures
            r.amount == amount,
            r.currency@ == currency@,
    {
        Money { amount, currency: currency.to_owned() }
    }

    /// An amount in US dollars.
    pub fn dollar(amount: u32) -> (r: Expression)
        ensures
            r matches Expression::Money(m) && m.amount == amount && m.currency@ == "USD"@,
    {
        Expression::Money(Money::new(amount, "USD"))
    }

    /// An amount in Swiss francs.
    pub fn franc(amount: u32) -> (r: Expression)
        ensures
            r matches Expression::Money(m) && m.amount == amount && m.currency@ == "CHF"@,
    {
        Expression::Money(Money::new(amount, "CHF"))
    }

    /// The amount multiplied by `multiplier`, in the same currency.
    pub fn times(&self, multiplier: u32) -> (r: Result<Expression, MoneyError>)
        ensures
            r == (if Expression::Money(*self).scale_fits(multiplier) {
                Ok(Expression::Money(*self).scaled(multiplier))
            } else {
                Err(MoneyError::ArithmeticOverflow)
            }),
    {
        match self.amount.checked_mul(multiplier) {
            Some(amount) => Ok(Expression::Money(Money { amount, currency: self.currency.clone() })),
            None => Err(MoneyError::ArithmeticOverflow),
        }
    }

    /// A sum of this amount and `addend`; nothing is added until the sum is
    /// reduced.
    pub fn plus(&self, addend: Expression) -> (r: Expression)
        ensures
            r == sum_of(Expression::Money(*self), addend),
    {
        Expression::Sum(Sum::new(Expression::Money(self.clone()), addend))
    }

    /// The amount converted to `to`: divided by the bank's rate and
    /// truncated.
    pub fn reduce(&self, bank: &Bank, to: &str) -> (r: Result<Money, MoneyError>)
        ensures
            Expression::Money(*self).is_reduction(bank@, to@, r),
    {
        let rate = bank.rate(self.currency.as_str(), to);
        match rate {
            Ok(rate) => Ok(Money::new(self.amount / rate, to)),
            Err(e) => Err(e),
        }
    }

    /// The currency label.
    pub fn currency(&self) -> (r: &str)
        ensures
            r@ == self.currency@,
    {
        self.currency.as_str()
    }
}

impl Clone for Money {
    fn clone(&self) -> (r: Self)
        ensures
            r == *self,
    {
        Money { amount: self.amount, currency: self.currency.clone() }
    }
}

} // verus!
