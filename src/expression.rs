use vstd::prelude::*;

use crate::bank::{rate_of, Bank};
use crate::error::MoneyError;
use crate::money::Money;

verus! {

/// An amount not yet reduced to one currency: a single amount, or the sum of
/// two expressions.
#[derive(Debug, PartialEq)]
pub enum Expression {
    Sum(Sum),
    Money(Money),
}

/// The sum of two expressions, each owned by this node.
#[derive(Debug, PartialEq)]
pub struct Sum {
    pub augend: Box<Expression>,
    pub addend: Box<Expression>,
}

/// The expression that adds `addend` to `augend`.
pub open spec fn sum_of(augend: Expression, addend: Expression) -> Expression {
    Expression::Sum(Sum { augend: Box::new(augend), addend: Box::new(addend) })
}

impl Expression {
    /// Whether every amount in the tree, multiplied by `k`, stays within `u32`.
    pub open spec fn scale_fits(self, k: u32) -> bool
        decreases self,
    {
        match self {
            Expression::Sum(sum) => sum.augend.scale_fits(k) && sum.addend.scale_fits(k),
            Expression::Money(money) => money.amount * k <= u32::MAX,
        }
    }

    /// The same tree with every amount multiplied by `k`.
    pub open spec fn scaled(self, k: u32) -> Expression
        decreases self,
    {
        match self {
            Expression::Sum(sum) => sum_of(sum.augend.scaled(k), sum.addend.scaled(k)),
            Expression::Money(money) => Expression::Money(
                Money { amount: (money.amount * k) as u32, currency: money.currency },
            ),
        }
    }

    /// The sum, over the leaves of the tree, of each amount divided (and
    /// truncated) by the rate from its currency to `to`; `None` where a leaf
    /// has no such rate.
    pub open spec fn converted_total(
        self,
        table: Map<(Seq<char>, Seq<char>), u32>,
        to: Seq<char>,
    ) -> Option<nat>
        decreases self,
    {
        match self {
            Expression::Sum(sum) => match (
                sum.augend.converted_total(table, to),
                sum.addend.converted_total(table, to),
            ) {
                (Some(a), Some(b)) => Some(a + b),
                _ => None,
            },
            Expression::Money(money) => match rate_of(table, money.currency@, to) {
                Some(rate) => Some((money.amount / rate) as nat),
                None => None,
            },
        }
    }

    /// The amount that reducing the tree to `to` gives, or why it fails: a
    /// missing rate, or a total beyond `u32`.
    pub open spec fn reduce_outcome(
        self,
        table: Map<(Seq<char>, Seq<char>), u32>,
        to: Seq<char>,
    ) -> Result<nat, MoneyError> {
        match self.converted_total(table, to) {
            Some(total) => if total <= u32::MAX {
                Ok(total)
            } else {
                Err(MoneyError::ArithmeticOverflow)
            },
            None => Err(MoneyError::RateNotFound),
        }
    }

    /// Whether `r` is what reducing the tree to `to` with the rates of
    /// `table` gives: a `Money` in `to` with the reduced amount, or the error.
    pub open spec fn is_reduction(
        self,
        table: Map<(Seq<char>, Seq<char>), u32>,
        to: Seq<char>,
        r: Result<Money, MoneyError>,
    ) -> bool {
        match r {
            Ok(money) => self.reduce_outcome(table, to) == Ok::<nat, MoneyError>(money.amount as nat)
                && money.currency@ == to,
            Err(e) => self.reduce_outcome(table, to) == Err::<nat, MoneyError>(e),
        }
    }

    /// The tree with every amount multiplied by `multiplier`.
    pub fn times(&self, multiplier: u32) -> (r: Result<Expression, MoneyError>)
        ensures
            r == (if self.scale_fits(multiplier) {
                Ok(self.scaled(multiplier))
            } else {
                Err(MoneyError::ArithmeticOverflow)
            }),
        decreases self,
    {
        match self {
            Expression::Sum(sum) => sum.times(multiplier),
            Expression::Money(money) => money.times(multiplier),
        }
    }

    /// A new sum node with this tree as augend and `addend` as addend.
    pub fn plus(&self, addend: Expression) -> (r: Expression)
        ensures
            r == sum_of(*self, addend),
    {
        match self {
            Expression::Sum(sum) => sum.plus(addend),
            Expression::Money(money) => money.plus(addend),
        }
    }

    /// The tree reduced to one amount in currency `to`.
    pub fn reduce(&self, bank: &Bank, to: &str) -> (r: Result<Money, MoneyError>)
        ensures
            self.is_reduction(bank@, to@, r),
        decreases self,
    {
        match self {
            Expression::Sum(sum) => sum.reduce(bank, to),
            Expression::Money(money) => money.reduce(bank, to),
        }
    }

    /// The currency of a single amount. A sum may mix currencies, so it has
    /// none.
    pub fn currency(&self) -> (r: &str)
        requires
            self is Money,
        ensures
            r@ == self->Money_0.currency@,
    {
        match self {
            // excluded by the precondition
            Expression::Sum(_) => "",
            Expression::Money(money) => money.currency(),
        }
    }
}

impl Sum {
    pub fn new(augend: Expression, addend: Expression) -> (r: Sum)
        ensures
            *r.augend == augend,
            *r.addend == addend,
    {
        Sum { augend: Box::new(augend), addend: Box::new(addend) }
    }

    /// Both sides reduced to `to`, then added.
    pub fn reduce(&self, bank: &Bank, to: &str) -> (r: Result<Money, MoneyError>)
        ensures
            Expression::Sum(*self).is_reduction(bank@, to@, r),
        decreases self,
    {
        let left = self.augend.reduce(bank, to);
        let right = self.addend.reduce(bank, to);
        match (left, right) {
            (Ok(a), Ok(b)) => match a.amount.checked_add(b.amount) {
                Some(total) => Ok(Money::new(total, to)),
                None => Err(MoneyError::ArithmeticOverflow),
            },
            (Err(MoneyError::RateNotFound), _) => Err(MoneyError::RateNotFound),
            (_, Err(MoneyError::RateNotFound)) => Err(MoneyError::RateNotFound),
            _ => Err(MoneyError::ArithmeticOverflow),
        }
    }

    /// Both sides multiplied by `multiplier`.
    pub fn times(&self, multiplier: u32) -> (r: Result<Expression, MoneyError>)
        ensures
            r == (if Expression::Sum(*self).scale_fits(multiplier) {
                Ok(Expression::Sum(*self).scaled(multiplier))
            } else {
                Err(MoneyError::ArithmeticOverflow)
            }),
        decreases self,
    {
        let left = self.augend.times(multiplier);
        let right = self.addend.times(multiplier);
        match (left, right) {
            (Ok(a), Ok(b)) => Ok(Expression::Sum(Sum::new(a, b))),
            _ => Err(MoneyError::ArithmeticOverflow),
        }
    }

    /// A new sum node with this sum as augend and `addend` as addend.
    pub fn plus(&self, addend: Expression) -> (r: Expression)
        ensures
            r == sum_of(Expression::Sum(*self), addend),
    {
        Expression::Sum(Sum::new(Expression::Sum(self.clone()), addend))
    }
}

impl Clone for Sum {
    /// A deep copy of both sides.
    fn clone(&self) -> (r: Self)
        ensures
            r == *self,
    {
        Sum { augend: Box::new((*self.augend).clone()), addend: Box::new((*self.addend).clone()) }
    }
}

impl Clone for Expression {
    /// A deep copy of the tree.
    fn clone(&self) -> (r: Self)
        ensures
            r == *self,
        decreases self,
    {
        match self {
            Expression::Sum(sum) => Expression::Sum(
                Sum { augend: Box::new((*sum.augend).clone()), addend: Box::new((*sum.addend).clone()) },
            ),
            Expression::Money(money) => Expression::Money(money.clone()),
        }
    }
}

} // verus!
