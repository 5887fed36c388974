//! A bounded table of currency rates.

use std::ops::{Div, Mul};
use vstd::prelude::*;
use vstd::std_specs::ops::{DivSpec, MulSpec};

use crate::currency::CurrencyCode;

verus! {

/// Whether `i` is the place of the first entry of `table` for `code`.
pub open spec fn is_first_match<R>(table: Seq<(CurrencyCode, R)>, code: CurrencyCode, i: int) -> bool {
    &&& 0 <= i < table.len()
    &&& table[i].0 == code
    &&& forall|j: int| 0 <= j < i ==> (#[trigger] table[j]).0 != code
}

/// Whether `table` has an entry for `code`.
pub open spec fn has_code<R>(table: Seq<(CurrencyCode, R)>, code: CurrencyCode) -> bool {
    exists|i: int| 0 <= i < table.len() && (#[trigger] table[i]).0 == code
}

/// The rate of the first entry of `table` for `code`.
pub open spec fn rate_of<R>(table: Seq<(CurrencyCode, R)>, code: CurrencyCode) -> R {
    table[choose|i: int| is_first_match(table, code, i)].1
}

/// The table after an attempt to add `entry` to a table that holds at most
/// `capacity` entries: the entry goes in where there is room, and is dropped
/// where there is none.
pub open spec fn pushed<R>(table: Seq<(CurrencyCode, R)>, capacity: nat, entry: (CurrencyCode, R)) -> Seq<
    (CurrencyCode, R),
> {
    if table.len() < capacity {
        table.push(entry)
    } else {
        table
    }
}

/// The table after attempts to add each of `entries` in turn.
pub open spec fn pushed_all<R>(
    table: Seq<(CurrencyCode, R)>,
    capacity: nat,
    entries: Seq<(CurrencyCode, R)>,
) -> Seq<(CurrencyCode, R)>
    decreases entries.len(),
{
    if entries.len() == 0 {
        table
    } else {
        pushed_all(pushed(table, capacity, entries[0]), capacity, entries.drop_first())
    }
}

/// How many of `count` further entries a table of `len` entries and room for
/// `capacity` takes.
pub open spec fn taken(len: nat, capacity: nat, count: nat) -> nat {
    if len >= capacity {
        0
    } else if count <= capacity - len {
        count
    } else {
        (capacity - len) as nat
    }
}

/// What a conversion of `amount` from one currency into another gives: the
/// amount times the quotient of the two rates, or nothing where the table
/// lacks either currency.
pub open spec fn convert_spec<R: Div<Output = R> + Mul<Output = R>>(
    table: Seq<(CurrencyCode, R)>,
    amount: R,
    from: CurrencyCode,
    to: CurrencyCode,
) -> Option<R> {
    if has_code(table, from) && has_code(table, to) {
        Some(amount.mul_spec(rate_of(table, to).div_spec(rate_of(table, from))))
    } else {
        None
    }
}

/// Whether the rate type's arithmetic allows the conversion of `amount`
/// from one currency into another: the division of the two rates, and the
/// multiplication of the amount by whatever that division may give. It does
/// where a currency is missing.
pub open spec fn convert_req<R: Div<Output = R> + Mul<Output = R>>(
    table: Seq<(CurrencyCode, R)>,
    amount: R,
    from: CurrencyCode,
    to: CurrencyCode,
) -> bool {
    has_code(table, from) && has_code(table, to) ==> {
        &&& rate_of(table, to).div_req(rate_of(table, from))
        &&& forall|quotient: R|
            (R::obeys_div_spec() ==> quotient == rate_of(table, to).div_spec(rate_of(table, from)))
                ==> #[trigger] amount.mul_req(quotient)
    }
}

/// Whether the rate type's own arithmetic may make `value` of a conversion
/// of `amount` from one currency into another: `value` is what its
/// multiplication made of the amount and of what its division made of the
/// rate of `to` and the rate of `from`.
pub open spec fn converts_to<R: Div<Output = R> + Mul<Output = R>>(
    table: Seq<(CurrencyCode, R)>,
    amount: R,
    from: CurrencyCode,
    to: CurrencyCode,
    value: R,
) -> bool {
    exists|quotient: R|
        {
            &&& #[trigger] call_ensures(
                <R as Div>::div,
                (rate_of(table, to), rate_of(table, from)),
                quotient,
            )
            &&& call_ensures(<R as Mul>::mul, (amount, quotient), value)
        }
}

/// Attempts to add entries one after the other take as many as there is
/// room for, in their order, and drop the rest.
pub proof fn lemma_pushed_all<R>(table: Seq<(CurrencyCode, R)>, capacity: nat, entries: Seq<(CurrencyCode, R)>)
    ensures
        pushed_all(table, capacity, entries) == table + entries.take(
            taken(table.len(), capacity, entries.len()) as int,
        ),
    decreases entries.len(),
{
    if entries.len() == 0 {
        assert(table =~= table + entries.take(0));
    } else {
        let next = pushed(table, capacity, entries[0]);
        let rest = entries.drop_first();
        lemma_pushed_all(next, capacity, rest);
        let k = taken(table.len(), capacity, entries.len()) as int;
        if table.len() < capacity {
            let k1 = taken(next.len(), capacity, rest.len()) as int;
            assert(k == k1 + 1);
            assert(next + rest.take(k1) =~= table + entries.take(k));
        } else {
            assert(next + rest.take(0) =~= table + entries.take(0));
        }
    }
}

/// Pushes into an empty table of room `capacity` are taken exactly
/// `capacity` times and refused from then on: the push of `entries[i]`
/// finds room exactly when `i` is below `capacity`, and the table never
/// holds more than `capacity` entries.
pub proof fn lemma_push_fills_then_refuses<R>(capacity: nat, entries: Seq<(CurrencyCode, R)>, i: int)
    requires
        0 <= i < entries.len(),
    ensures
        pushed_all(Seq::empty(), capacity, entries.take(i)).len() < capacity <==> i < capacity,
        pushed_all(Seq::empty(), capacity, entries).len() <= capacity,
        pushed_all(Seq::empty(), capacity, entries).len() == if entries.len() <= capacity {
            entries.len()
        } else {
            capacity
        },
{
    lemma_pushed_all(Seq::<(CurrencyCode, R)>::empty(), capacity, entries.take(i));
    lemma_pushed_all(Seq::<(CurrencyCode, R)>::empty(), capacity, entries);
}

/// Converting an amount from a currency into the same currency gives the
/// amount back, wherever the currency's rate divided by itself is a `one`
/// of the rate type that leaves the amount as it is when multiplied.
pub proof fn lemma_convert_identity<R: Div<Output = R> + Mul<Output = R>>(
    table: Seq<(CurrencyCode, R)>,
    amount: R,
    code: CurrencyCode,
    one: R,
)
    requires
        has_code(table, code),
        rate_of(table, code).div_spec(rate_of(table, code)) == one,
        amount.mul_spec(one) == amount,
    ensures
        convert_spec(table, amount, code, code) == Some(amount),
{
}

/// The same of rate types whose operators carry no description: whatever
/// a conversion from a currency into the same currency gave, it is the
/// amount, wherever the rate type's division makes nothing but `one` of
/// the currency's rate and itself, and its multiplication nothing but the
/// amount of the amount and `one`.
pub proof fn lemma_convert_identity_of_operators<R: Div<Output = R> + Mul<Output = R>>(
    table: Seq<(CurrencyCode, R)>,
    amount: R,
    code: CurrencyCode,
    one: R,
    value: R,
)
    requires
        converts_to(table, amount, code, code, value),
        forall|quotient: R| #[trigger]
            call_ensures(<R as Div>::div, (rate_of(table, code), rate_of(table, code)), quotient)
                ==> quotient == one,
        forall|product: R| #[trigger]
            call_ensures(<R as Mul>::mul, (amount, one), product) ==> product == amount,
    ensures
        value == amount,
{
}

/// With whole numbers for rates, the arithmetic does: converting an
/// amount from a currency into the same currency is allowed and gives the
/// amount back, whenever the currency's rate is not zero.
pub proof fn lemma_convert_identity_whole(table: Seq<(CurrencyCode, u64)>, amount: u64, code: CurrencyCode)
    requires
        has_code(table, code),
        rate_of(table, code) != 0,
    ensures
        convert_req(table, amount, code, code),
        convert_spec(table, amount, code, code) == Some(amount),
{
    let rate = rate_of(table, code);
    assert(rate / rate == 1) by (nonlinear_arith)
        requires
            rate > 0,
    ;
    assert(amount * 1 == amount);
    lemma_convert_identity(table, amount, code, 1u64);
}

/// Currency rates: at most `N` pairs of a code and a rate, in the order in
/// which they came.
#[derive(Debug)]
pub struct Rates<const N: usize, RATE> {
    currency: Vec<CurrencyCode>,
    rate: Vec<RATE>,
}

impl<const N: usize, RATE> View for Rates<N, RATE> {
    type V = Seq<(CurrencyCode, RATE)>;

    /// The entries, oldest first.
    closed spec fn view(&self) -> Seq<(CurrencyCode, RATE)> {
        Seq::new(self.currency@.len(), |i: int| (self.currency@[i], self.rate@[i]))
    }
}

impl<const N: usize, RATE> Rates<N, RATE> {
    /// Whether the table is well formed: its two columns have one length,
    /// which is at most `N`. Every table that this library hands out is.
    pub closed spec fn wf(&self) -> bool {
        self.currency@.len() == self.rate@.len() && self.currency@.len() <= N
    }

    /// Creates an empty table.
    pub fn new() -> (r: Self)
        ensures
            r.wf(),
            r@ == Seq::<(CurrencyCode, RATE)>::empty(),
    {
        let r = Rates { currency: Vec::new(), rate: Vec::new() };
        assert(r@ =~= Seq::<(CurrencyCode, RATE)>::empty());
        r
    }

    /// Gets the count of rates.
    pub fn len(&self) -> (r: usize)
        requires
            self.wf(),
        ensures
            r == self@.len(),
            r <= N,
    {
        self.currency.len()
    }

    /// Gets whether there are no rates.
    pub fn is_empty(&self) -> (r: bool)
        ensures
            r == (self@.len() == 0),
    {
        self.currency.len() == 0
    }

    /// Removes all rates.
    pub fn clear(&mut self)
        ensures
            final(self).wf(),
            final(self)@ == Seq::<(CurrencyCode, RATE)>::empty(),
    {
        self.currency.clear();
        self.rate.clear();
        assert(self@ =~= Seq::<(CurrencyCode, RATE)>::empty());
    }

    /// Gets a slice of the currencies.
    pub fn currencies(&self) -> (r: &[CurrencyCode])
        ensures
            r@.len() == self@.len(),
            forall|i: int| 0 <= i < r@.len() ==> r@[i] == (#[trigger] self@[i]).0,
    {
        self.currency.as_slice()
    }

    /// Gets a slice of the rates.
    pub fn rates(&self) -> (r: &[RATE])
        requires
            self.wf(),
        ensures
            r@.len() == self@.len(),
            forall|i: int| 0 <= i < r@.len() ==> r@[i] == (#[trigger] self@[i]).1,
    {
        self.rate.as_slice()
    }

    /// Lists the currency rates, oldest first.
    pub fn iter(&self) -> (r: Vec<(CurrencyCode, &RATE)>)
        requires
            self.wf(),
        ensures
            r@.len() == self@.len(),
            forall|i: int|
                0 <= i < r@.len() ==> (#[trigger] r@[i]).0 == self@[i].0 && *r@[i].1 == self@[i].1,
    {
        let n = self.currency.len();
        let mut out: Vec<(CurrencyCode, &RATE)> = Vec::new();
        let mut i: usize = 0;
        while i < n
            invariant
                i <= n,
                n == self.currency@.len(),
                n == self.rate@.len(),
                out@.len() == i,
                forall|j: int|
                    0 <= j < i ==> (#[trigger] out@[j]).0 == self@[j].0 && *out@[j].1 == self@[j].1,
            decreases n - i,
        {
            out.push((self.currency[i], &self.rate[i]));
            i += 1;
        }
        out
    }

    /// Pushes a new currency rate into a table that has room for it.
    pub fn push_unchecked(&mut self, currency: CurrencyCode, rate: RATE)
        requires
            old(self).wf(),
            old(self)@.len() < N,
        ensures
            final(self).wf(),
            final(self)@ == old(self)@.push((currency, rate)),
    {
        self.currency.push(currency);
        self.rate.push(rate);
        assert(self@ =~= old(self)@.push((currency, rate)));
    }

    /// Pushes a new currency rate, if the table is not full.
    ///
    /// Returns whether the rate was inserted. Nothing looks for an earlier
    /// entry of the same currency.
    pub fn push(&mut self, currency: CurrencyCode, rate: RATE) -> (r: bool)
        requires
            old(self).wf(),
        ensures
            final(self).wf(),
            r == (old(self)@.len() < N),
            final(self)@ == pushed(old(self)@, N as nat, (currency, rate)),
    {
        if self.len() < N {
            self.push_unchecked(currency, rate);
            true
        } else {
            false
        }
    }

    /// Appends the given rates, until full.
    ///
    /// Returns whether all values were appended. Those that found the table
    /// full are dropped.
    pub fn extend_capped(&mut self, items: Vec<(CurrencyCode, RATE)>) -> (r: bool)
        requires
            old(self).wf(),
        ensures
            final(self).wf(),
            r == (old(self)@.len() + items@.len() <= N),
            final(self)@ == old(self)@ + items@.take(
                taken(old(self)@.len(), N as nat, items@.len()) as int,
            ),
    {
        let ghost all = items@;
        proof {
            assert(self@ =~= old(self)@ + all.take(0));
        }
        for item in it: items
            invariant
                it.seq() == all,
                self.wf(),
                self@ == old(self)@ + all.take(it.index() as int),
                self@.len() <= N,
        {
            let ghost before = self@;
            let ghost k = it.index() as int;
            if !self.push(item.0, item.1) {
                return false;
            }
            proof {
                assert(all.take(k + 1) =~= all.take(k).push(all[k]));
                assert(self@ =~= old(self)@ + all.take(k + 1));
            }
        }
        proof {
            assert(all.take(all.len() as int) =~= all);
        }
        true
    }

    /// Converts an amount between currencies.
    ///
    /// Returns [`None`] if either the `from` or `to` currencies are missing.
    /// The arithmetic is the rate type's own: the amount times the quotient
    /// of the rate of `to` by the rate of `from`.
    pub fn convert(&self, amount: &RATE, from: CurrencyCode, to: CurrencyCode) -> (r: Option<RATE>) where
        RATE: Copy + Div<Output = RATE> + Mul<Output = RATE>,

        requires
            self.wf(),
            convert_req(self@, *amount, from, to),
        ensures
            r is Some == (has_code(self@, from) && has_code(self@, to)),
            r matches Some(value) ==> converts_to(self@, *amount, from, to, value),
            RATE::obeys_div_spec() && RATE::obeys_mul_spec() ==> r == convert_spec(
                self@,
                *amount,
                from,
                to,
            ),
    {
        let from_value = match self.get(from) {
            Some(value) => *value,
            None => {
                return None;
            },
        };
        let to_value = match self.get(to) {
            Some(value) => *value,
            None => {
                return None;
            },
        };
        let quotient = to_value / from_value;
        let value = *amount * quotient;
        proof {
            assert(call_ensures(<RATE as Div>::div, (to_value, from_value), quotient));
            assert(call_ensures(<RATE as Mul>::mul, (*amount, quotient), value));
            assert(converts_to(self@, *amount, from, to, value));
        }
        Some(value)
    }

    /// Gets the rate for the given currency, if exists: that of the oldest
    /// entry for it.
    pub fn get(&self, currency: CurrencyCode) -> (r: Option<&RATE>)
        requires
            self.wf(),
        ensures
            r is Some == has_code(self@, currency),
            r matches Some(rate) ==> *rate == rate_of(self@, currency),
    {
        let n = self.currency.len();
        let mut i: usize = 0;
        while i < n
            invariant
                i <= n,
                n == self.currency@.len(),
                n == self.rate@.len(),
                forall|j: int| 0 <= j < i ==> (#[trigger] self@[j]).0 != currency,
            decreases n - i,
        {
            if self.currency[i] == currency {
                proof {
                    assert(self@[i as int].0 == currency);
                    assert(is_first_match(self@, currency, i as int));
                    let k = choose|k: int| is_first_match(self@, currency, k);
                    assert(is_first_match(self@, currency, k));
                    if k < i {
                        assert(self@[k].0 != currency);
                    }
                    if i < k {
                        assert(self@[i as int].0 != currency);
                    }
                    assert(k == i);
                }
                return Some(&self.rate[i]);
            }
            i += 1;
        }
        proof {
            assert forall|j: int| 0 <= j < self@.len() implies (#[trigger] self@[j]).0
                != currency by {}
        }
        None
    }
}

impl<const N: usize, RATE> Default for Rates<N, RATE> {
    /// The empty table.
    fn default() -> (r: Self)
        ensures
            r.wf(),
            r@ == Seq::<(CurrencyCode, RATE)>::empty(),
    {
        Rates::new()
    }
}

} // verus!
