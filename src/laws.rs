use vstd::prelude::*;

use crate::bank::Bank;
use crate::error::MoneyError;
use crate::expression::{sum_of, Expression};
use crate::money::Money;

verus! {

/// Scaling distributes over addition: multiplying `a + b` by `k` fits exactly
/// when multiplying `a` and `b` does, and then `k*a + k*b` reduces to what
/// `k*(a + b)` reduces to, for any bank and target currency.
pub proof fn lemma_times_distributes(
    a: Expression,
    b: Expression,
    k: u32,
    bank: Bank,
    to: Seq<char>,
)
    ensures
        sum_of(a, b).scale_fits(k) == (a.scale_fits(k) && b.scale_fits(k)),
        sum_of(a.scaled(k), b.scaled(k)).reduce_outcome(bank@, to) == sum_of(a, b).scaled(
            k,
        ).reduce_outcome(bank@, to),
{
}

/// The order of the two sides of a sum does not change what it reduces to.
pub proof fn lemma_reduce_sum_commutes(a: Expression, b: Expression, bank: Bank, to: Seq<char>)
    ensures
        sum_of(a, b).reduce_outcome(bank@, to) == sum_of(b, a).reduce_outcome(bank@, to),
{
}

/// Reducing an amount to its own currency gives the same amount back, in any
/// bank.
pub proof fn lemma_reduce_own_currency(money: Money, bank: Bank)
    ensures
        forall|r: Result<Money, MoneyError>|
            #[trigger] Expression::Money(money).is_reduction(bank@, money.currency@, r) ==> (r matches Ok(
                m,
            ) && m.amount == money.amount && m.currency@ == money.currency@),
{
}

} // verus!
