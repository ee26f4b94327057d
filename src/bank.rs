use vstd::prelude::*;

use crate::error::MoneyError;
use crate::expression::Expression;
use crate::money::Money;

verus! {

/// A directional key into the rate table: from one currency to another.
#[derive(Debug, PartialEq, Eq)]
pub struct Pair {
    from: String,
    to: String,
}

impl View for Pair {
    type V = (Seq<char>, Seq<char>);

    closed spec fn view(&self) -> (Seq<char>, Seq<char>) {
        (self.from@, self.to@)
    }
}

impl Pair {
    pub fn new(from: &str, to: &str) -> (r: Pair)
        ensures
            r@ == (from@, to@),
    {
        Pair { from: from.to_owned(), to: to.to_owned() }
    }

    fn same_as(&self, other: &Pair) -> (r: bool)
        ensures
            r == (self@ == other@),
    {
        self.from == other.from && self.to == other.to
    }

    fn is_identity(&self) -> (r: bool)
        ensures
            r == (self@.0 == self@.1),
    {
        self.from == self.to
    }
}

/// The rate to divide by when converting from one currency to another:
/// 1 between a currency and itself, whatever the table holds; otherwise the
/// table's entry for the pair, if there is one.
pub open spec fn rate_of(
    table: Map<(Seq<char>, Seq<char>), u32>,
    from: Seq<char>,
    to: Seq<char>,
) -> Option<u32> {
    if from == to {
        Some(1)
    } else if table.contains_key((from, to)) {
        Some(table[(from, to)])
    } else {
        None
    }
}

/// The table that a list of entries describes, where a later entry for a
/// pair takes the place of an earlier one.
spec fn table_of(entries: Seq<(Pair, u32)>) -> Map<(Seq<char>, Seq<char>), u32>
    decreases entries.len(),
{
    if entries.len() == 0 {
        Map::empty()
    } else {
        table_of(entries.drop_last()).insert(entries.last().0@, entries.last().1)
    }
}

proof fn lemma_table_absent(entries: Seq<(Pair, u32)>, key: (Seq<char>, Seq<char>))
    requires
        forall|i: int| 0 <= i < entries.len() ==> (#[trigger] entries[i]).0@ != key,
    ensures
        !table_of(entries).contains_key(key),
    decreases entries.len(),
{
    if entries.len() > 0 {
        lemma_table_absent(entries.drop_last(), key);
    }
}

proof fn lemma_table_last(entries: Seq<(Pair, u32)>, i: int)
    requires
        0 <= i < entries.len(),
        forall|j: int| i < j < entries.len() ==> (#[trigger] entries[j]).0@ != entries[i].0@,
    ensures
        table_of(entries).contains_key(entries[i].0@),
        table_of(entries)[entries[i].0@] == entries[i].1,
    decreases entries.len(),
{
    if i < entries.len() - 1 {
        let rest = entries.drop_last();
        assert forall|j: int| i < j < rest.len() implies (#[trigger] rest[j]).0@ != rest[i].0@ by {
            assert(rest[j] == entries[j]);
        }
        lemma_table_last(rest, i);
    }
}

proof fn lemma_table_update(entries: Seq<(Pair, u32)>, i: int, entry: (Pair, u32))
    requires
        0 <= i < entries.len(),
        entry.0@ == entries[i].0@,
        forall|j: int| i < j < entries.len() ==> (#[trigger] entries[j]).0@ != entries[i].0@,
    ensures
        table_of(entries.update(i, entry)) == table_of(entries).insert(entry.0@, entry.1),
    decreases entries.len(),
{
    let updated = entries.update(i, entry);
    if i == entries.len() - 1 {
        assert(updated.drop_last() =~= entries.drop_last());
        assert(table_of(updated) =~= table_of(entries).insert(entry.0@, entry.1));
    } else {
        let rest = entries.drop_last();
        assert forall|j: int| i < j < rest.len() implies (#[trigger] rest[j]).0@ != rest[i].0@ by {
            assert(rest[j] == entries[j]);
        }
        lemma_table_update(rest, i, entry);
        assert(updated.drop_last() =~= rest.update(i, entry));
        assert(table_of(updated) =~= table_of(entries).insert(entry.0@, entry.1));
    }
}

/// Holds the exchange rates and reduces expressions to one currency.
pub struct Bank {
    rates: Vec<(Pair, u32)>,
}

impl View for Bank {
    type V = Map<(Seq<char>, Seq<char>), u32>;

    closed spec fn view(&self) -> Map<(Seq<char>, Seq<char>), u32> {
        table_of(self.rates@)
    }
}

impl Bank {
    #[verifier::type_invariant]
    spec fn rates_positive(&self) -> bool {
        forall|i: int| 0 <= i < self.rates@.len() ==> (#[trigger] self.rates@[i]).1 > 0
    }

    /// A bank that holds no rate.
    pub fn new() -> (r: Bank)
        ensures
            r@ == Map::<(Seq<char>, Seq<char>), u32>::empty(),
    {
        Bank { rates: Vec::new() }
    }

    /// Where the entry for `pair` stands: the last one with that key, or
    /// `None` where the table has no entry for it.
    fn position(&self, pair: &Pair) -> (r: Option<usize>)
        ensures
            match r {
                Some(i) => {
                    &&& i < self.rates@.len()
                    &&& self.rates@[i as int].0@ == pair@
                    &&& forall|j: int|
                        i < j < self.rates@.len() ==> (#[trigger] self.rates@[j]).0@ != pair@
                },
                None => forall|j: int|
                    0 <= j < self.rates@.len() ==> (#[trigger] self.rates@[j]).0@ != pair@,
            },
    {
        let mut i: usize = self.rates.len();
        while i > 0
            invariant
                i <= self.rates@.len(),
                forall|j: int| i <= j < self.rates@.len() ==> (#[trigger] self.rates@[j]).0@ != pair@,
            decreases i,
        {
            i = i - 1;
            if self.rates[i].0.same_as(pair) {
                return Some(i);
            }
        }
        None
    }

    /// `source` reduced to one amount in currency `to`.
    pub fn reduce(&self, source: Expression, to: &str) -> (r: Result<Money, MoneyError>)
        ensures
            source.is_reduction(self@, to@, r),
    {
        source.reduce(self, to)
    }

    /// Sets the rate from `from` to `to`, replacing any earlier one. The
    /// reverse direction is left as it is.
    pub fn add_rate(&mut self, from: &str, to: &str, rate: u32)
        requires
            rate > 0,
        ensures
            final(self)@ == old(self)@.insert((from@, to@), rate),
    {
        proof {
            use_type_invariant(&*self);
        }
        let pair = Pair::new(from, to);
        let found = self.position(&pair);
        let mut rates: Vec<(Pair, u32)> = Vec::new();
        std::mem::swap(&mut rates, &mut self.rates);
        let ghost before = rates@;
        match found {
            Some(i) => {
                let ghost entry = (pair, rate);
                rates.set(i, (pair, rate));
                proof {
                    lemma_table_update(before, i as int, entry);
                }
            },
            None => {
                rates.push((pair, rate));
                proof {
                    assert(rates@.drop_last() =~= before);
                }
            },
        }
        self.rates = rates;
    }

    /// The rate from `from` to `to`: 1 between a currency and itself,
    /// otherwise the rate that was added for the pair.
    pub fn rate(&self, from: &str, to: &str) -> (r: Result<u32, MoneyError>)
        ensures
            r == (match rate_of(self@, from@, to@) {
                Some(x) => Ok(x),
                None => Err(MoneyError::RateNotFound),
            }),
            from@ == to@ ==> r == Ok::<u32, MoneyError>(1),
            r matches Ok(x) ==> x > 0,
    {
        proof {
            use_type_invariant(self);
        }
        let pair = Pair::new(from, to);
        if pair.is_identity() {
            return Ok(1);
        }
        match self.position(&pair) {
            Some(i) => {
                proof {
                    lemma_table_last(self.rates@, i as int);
                }
                Ok(self.rates[i].1)
            },
            None => {
                proof {
                    lemma_table_absent(self.rates@, pair@);
                }
                Err(MoneyError::RateNotFound)
            },
        }
    }
}

} // verus!
