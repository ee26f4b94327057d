use money::{Bank, Expression, Money, MoneyError, Pair, Sum};

fn usd(amount: u32) -> Money {
    Money::new(amount, "USD")
}

#[test]
fn identity_rate_without_any_entry() {
    let bank = Bank::new();
    assert_eq!(Ok(1), bank.rate("CHF", "CHF"));
    assert_eq!(Ok(1), bank.rate("XYZ", "XYZ"));
}

#[test]
fn identity_rate_ignores_explicit_entry() {
    let mut bank = Bank::new();
    bank.add_rate("USD", "USD", 5);
    assert_eq!(Ok(1), bank.rate("USD", "USD"));
    assert_eq!(Ok(usd(7)), bank.reduce(Money::dollar(7), "USD"));
}

#[test]
fn missing_rate_fails() {
    let bank = Bank::new();
    assert_eq!(Err(MoneyError::RateNotFound), bank.reduce(Money::franc(5), "USD"));
    assert_eq!(Err(MoneyError::RateNotFound), bank.rate("CHF", "USD"));
}

#[test]
fn rates_are_one_directional() {
    let mut bank = Bank::new();
    bank.add_rate("CHF", "USD", 2);
    assert_eq!(Ok(2), bank.rate("CHF", "USD"));
    assert_eq!(Err(MoneyError::RateNotFound), bank.rate("USD", "CHF"));
    assert_eq!(Err(MoneyError::RateNotFound), bank.reduce(Money::dollar(4), "CHF"));
}

#[test]
fn add_rate_overwrites() {
    let mut bank = Bank::new();
    bank.add_rate("CHF", "USD", 2);
    bank.add_rate("EUR", "USD", 4);
    bank.add_rate("CHF", "USD", 5);
    assert_eq!(Ok(5), bank.rate("CHF", "USD"));
    assert_eq!(Ok(4), bank.rate("EUR", "USD"));
    assert_eq!(Ok(usd(3)), bank.reduce(Money::franc(15), "USD"));
}

#[test]
fn reduction_truncates() {
    let mut bank = Bank::new();
    bank.add_rate("CHF", "USD", 3);
    assert_eq!(Ok(usd(0)), bank.reduce(Money::franc(1), "USD"));
    assert_eq!(Ok(usd(3)), bank.reduce(Money::franc(11), "USD"));
}

#[test]
fn truncation_is_per_leaf() {
    let mut bank = Bank::new();
    bank.add_rate("CHF", "USD", 2);
    let sum = Money::franc(1).plus(Money::franc(1));
    assert_eq!(Ok(usd(0)), bank.reduce(sum, "USD"));
}

#[test]
fn identity_round_trip_in_any_bank() {
    let mut bank = Bank::new();
    bank.add_rate("CHF", "USD", 2);
    bank.add_rate("USD", "CHF", 3);
    assert_eq!(Ok(usd(0)), bank.reduce(Money::dollar(0), "USD"));
    assert_eq!(Ok(usd(42)), bank.reduce(Money::dollar(42), "USD"));
    assert_eq!(Ok(usd(u32::MAX)), bank.reduce(Money::dollar(u32::MAX), "USD"));
}

#[test]
fn reduce_through_money_directly() {
    let mut bank = Bank::new();
    bank.add_rate("CHF", "USD", 2);
    assert_eq!(Ok(usd(5)), Money::new(10, "CHF").reduce(&bank, "USD"));
    assert_eq!(Err(MoneyError::RateNotFound), Money::new(10, "CHF").reduce(&bank, "EUR"));
}

#[test]
fn sum_commutes_when_reduced() {
    let mut bank = Bank::new();
    bank.add_rate("CHF", "USD", 3);
    let a = Money::dollar(4);
    let b = Money::franc(10).plus(Money::franc(5));
    let ab = Expression::Sum(Sum::new(a.clone(), b.clone()));
    let ba = Expression::Sum(Sum::new(b, a));
    assert_eq!(bank.reduce(ab.clone(), "USD"), bank.reduce(ba, "USD"));
    assert_eq!(Ok(usd(8)), bank.reduce(ab, "USD"));
}

#[test]
fn times_distributes_over_plus() {
    let mut bank = Bank::new();
    bank.add_rate("CHF", "USD", 2);
    let a = Money::dollar(5);
    let b = Money::franc(7);
    let k = 3;
    let left = a.times(k).unwrap().plus(b.times(k).unwrap());
    let right = a.plus(b).times(k).unwrap();
    assert_eq!(left, right);
    assert_eq!(bank.reduce(left, "USD"), bank.reduce(right, "USD"));
    assert_eq!(Ok(usd(25)), bank.reduce(right_again(), "USD"));
}

fn right_again() -> Expression {
    Money::dollar(5).plus(Money::franc(7)).times(3).unwrap()
}

#[test]
fn times_overflow_fails() {
    assert_eq!(Err(MoneyError::ArithmeticOverflow), Money::dollar(u32::MAX).times(2));
    assert_eq!(Ok(Money::dollar(u32::MAX)), Money::dollar(u32::MAX).times(1));
    let sum = Money::dollar(1).plus(Money::franc(u32::MAX / 2 + 1));
    assert_eq!(Err(MoneyError::ArithmeticOverflow), sum.times(2));
    assert_eq!(Ok(Money::dollar(0)), Money::dollar(7).times(0));
}

#[test]
fn reduce_overflow_fails() {
    let bank = Bank::new();
    let sum = Money::dollar(u32::MAX).plus(Money::dollar(1));
    assert_eq!(Err(MoneyError::ArithmeticOverflow), bank.reduce(sum, "USD"));
    let fits = Money::dollar(u32::MAX - 1).plus(Money::dollar(1));
    assert_eq!(Ok(usd(u32::MAX)), bank.reduce(fits, "USD"));
}

#[test]
fn missing_rate_wins_over_overflow() {
    let bank = Bank::new();
    let big = Money::dollar(u32::MAX).plus(Money::dollar(1));
    let sum = big.plus(Money::franc(1));
    assert_eq!(Err(MoneyError::RateNotFound), bank.reduce(sum, "USD"));
}

#[test]
fn deep_right_leaning_tree() {
    let mut bank = Bank::new();
    bank.add_rate("CHF", "USD", 2);
    let mut e = Money::dollar(1);
    for _ in 0..10 {
        e = e.plus(Money::franc(4));
    }
    assert_eq!(Ok(usd(21)), bank.reduce(e, "USD"));
}

#[test]
fn money_accessors() {
    let m = Money::new(12, "EUR");
    assert_eq!("EUR", m.currency());
    assert_eq!(12, m.amount);
    assert_eq!(m.clone(), m);
}

#[test]
fn pairs_compare_by_value() {
    assert_eq!(Pair::new("CHF", "USD"), Pair::new("CHF", "USD"));
    assert_ne!(Pair::new("CHF", "USD"), Pair::new("USD", "CHF"));
}

#[test]
fn sum_plus_nests_to_the_left() {
    let s = Sum::new(Money::dollar(1), Money::dollar(2));
    let e = s.plus(Money::dollar(3));
    match e {
        Expression::Sum(outer) => {
            assert_eq!(Expression::Sum(s), *outer.augend);
            assert_eq!(Money::dollar(3), *outer.addend);
        }
        _ => panic!("not a sum"),
    }
}
