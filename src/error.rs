use vstd::prelude::*;

verus! {

/// Why an operation on amounts could not produce a result.
#[derive(Debug, Clone, Copy, PartialEq, Eq, Structural)]
pub enum MoneyError {
    /// A reduction needed a rate between two different currencies that the
    /// bank does not hold.
    RateNotFound,
    /// An amount left the range of `u32`.
    ArithmeticOverflow,
}

} // verus!
