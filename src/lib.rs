//! Currency arithmetic: amounts tagged with a currency, composed into sum
//! expressions, and reduced to a single currency through a bank's table of
//! exchange rates.

pub mod bank;
pub mod error;
pub mod expression;
pub mod laws;
pub mod money;

pub use bank::{Bank, Pair};
pub use error::MoneyError;
pub use expression::{Expression, Sum};
pub use money::Money;
