//! Numeric aggregates over a sequence of values of one integer kind.
use vstd::prelude::*;

verus! {

/// Integer kinds that `Stats` can aggregate: each value stands for a
/// mathematical integer, and a kind holds a known range of them.
pub trait Arithmetic: Copy + Sized {
    /// The integer that this value stands for.
    spec fn value(&self) -> int;

    /// Whether the kind can hold the integer `v`.
    spec fn fits(v: int) -> bool;

    /// Every value of the kind lies in its range.
    proof fn lemma_value_fits(x: Self)
        ensures
            Self::fits(x.value()),
    ;

    /// The value zero.
    fn zero() -> (r: Self)
        ensures
            r.value() == 0,
    ;

    /// Strict comparison of two values.
    fn less(&self, other: &Self) -> (r: bool)
        ensures
            r == (self.value() < other.value()),
    ;

    /// Sum of two values whose sum the kind can hold.
    fn plus(&self, other: &Self) -> (r: Self)
        requires
            Self::fits(self.value() + other.value()),
        ensures
            r.value() == self.value() + other.value(),
    ;

    /// Sum of two values, or `None` where the kind cannot hold it.
    fn checked_plus(&self, other: &Self) -> (r: Option<Self>)
        ensures
            r is Some <==> Self::fits(self.value() + other.value()),
            r matches Some(v) ==> v.value() == self.value() + other.value(),
    ;
}

impl Arithmetic for i32 {
    open spec fn value(&self) -> int {
        *self as int
    }

    open spec fn fits(v: int) -> bool {
        i32::MIN <= v <= i32::MAX
    }

    proof fn lemma_value_fits(x: Self) {
    }

    fn zero() -> (r: Self) {
        0
    }

    fn less(&self, other: &Self) -> (r: bool) {
        *self < *other
    }

    fn plus(&self, other: &Self) -> (r: Self) {
        *self + *other
    }

    fn checked_plus(&self, other: &Self) -> (r: Option<Self>) {
        self.checked_add(*other)
    }
}

impl Arithmetic for i64 {
    open spec fn value(&self) -> int {
        *self as int
    }

    open spec fn fits(v: int) -> bool {
        i64::MIN <= v <= i64::MAX
    }

    proof fn lemma_value_fits(x: Self) {
    }

    fn zero() -> (r: Self) {
        0
    }

    fn less(&self, other: &Self) -> (r: bool) {
        *self < *other
    }

    fn plus(&self, other: &Self) -> (r: Self) {
        *self + *other
    }

    fn checked_plus(&self, other: &Self) -> (r: Option<Self>) {
        self.checked_add(*other)
    }
}

/// The integers that a sequence of values stands for.
pub open spec fn values<T: Arithmetic>(s: Seq<T>) -> Seq<int> {
    s.map_values(|x: T| x.value())
}

/// Sum of a sequence of integers.
pub open spec fn sum_of(s: Seq<int>) -> int
    decreases s.len(),
{
    if s.len() == 0 {
        0
    } else {
        sum_of(s.drop_last()) + s.last()
    }
}

/// Every running sum of `s`, from the left, can be held by the kind.
pub open spec fn sums_fit<T: Arithmetic>(s: Seq<T>) -> bool {
    forall|k: int| 0 <= k <= s.len() ==> T::fits(#[trigger] sum_of(values(s).take(k)))
}

/// `s[k]` is the first element of `s` whose value is the greatest.
pub open spec fn is_first_max<T: Arithmetic>(s: Seq<T>, k: int) -> bool {
    &&& 0 <= k < s.len()
    &&& forall|j: int| 0 <= j < s.len() ==> s[j].value() <= s[k].value()
    &&& forall|j: int| 0 <= j < k ==> s[j].value() < s[k].value()
}

/// `s[k]` is the first element of `s` whose value is the least.
pub open spec fn is_first_min<T: Arithmetic>(s: Seq<T>, k: int) -> bool {
    &&& 0 <= k < s.len()
    &&& forall|j: int| 0 <= j < s.len() ==> s[k].value() <= s[j].value()
    &&& forall|j: int| 0 <= j < k ==> s[k].value() < s[j].value()
}

/// A sequence of values to aggregate.
#[derive(Debug, Clone)]
pub struct Stats<T: Arithmetic> {
    items: Vec<T>,
}

impl<T: Arithmetic> View for Stats<T> {
    type V = Seq<T>;

    closed spec fn view(&self) -> Seq<T> {
        self.items@
    }
}

impl<T: Arithmetic> Stats<T> {
    /// Takes ownership of the values.
    pub fn new(v: Vec<T>) -> (r: Stats<T>)
        ensures
            r@ == v@,
    {
        Stats { items: v }
    }

    /// Number of values held.
    pub fn count(&self) -> (r: usize)
        ensures
            r == self@.len(),
    {
        self.items.len()
    }

    /// The greatest value; of equal ones, the first.
    pub fn max(&self) -> (r: T)
        requires
            self@.len() > 0,
        ensures
            exists|k: int| is_first_max(self@, k) && r == self@[k],
    {
        let mut biggest = self.items[0];
        let ghost mut at: int = 0;
        let mut i: usize = 0;
        while i < self.items.len()
            invariant
                self@ == self.items@,
                0 <= at < self@.len(),
                at <= i,
                i <= self@.len(),
                biggest == self@[at],
                forall|j: int| 0 <= j < i ==> self@[j].value() <= biggest.value(),
                forall|j: int| 0 <= j < at ==> self@[j].value() < biggest.value(),
            decreases self@.len() - i,
        {
            let item = self.items[i];
            if biggest.less(&item) {
                biggest = item;
                proof {
                    at = i as int;
                }
            }
            i += 1;
        }
        assert(is_first_max(self@, at));
        biggest
    }

    /// The least value; of equal ones, the first.
    pub fn min(&self) -> (r: T)
        requires
            self@.len() > 0,
        ensures
            exists|k: int| is_first_min(self@, k) && r == self@[k],
    {
        let mut smallest = self.items[0];
        let ghost mut at: int = 0;
        let mut i: usize = 0;
        while i < self.items.len()
            invariant
                self@ == self.items@,
                0 <= at < self@.len(),
                at <= i,
                i <= self@.len(),
                smallest == self@[at],
                forall|j: int| 0 <= j < i ==> smallest.value() <= self@[j].value(),
                forall|j: int| 0 <= j < at ==> smallest.value() < self@[j].value(),
            decreases self@.len() - i,
        {
            let item = self.items[i];
            if item.less(&smallest) {
                smallest = item;
                proof {
                    at = i as int;
                }
            }
            i += 1;
        }
        assert(is_first_min(self@, at));
        smallest
    }

    /// Sum of the values, from zero, or `None` where a running sum, from
    /// the left, does not fit the kind.
    pub fn try_sum(&self) -> (r: Option<T>)
        ensures
            r is Some <==> sums_fit(self@),
            r matches Some(t) ==> t.value() == sum_of(values(self@)),
    {
        let ghost vals = values(self@);
        let mut total = T::zero();
        let mut i: usize = 0;
        proof {
            assert(vals.take(0) =~= Seq::<int>::empty());
            T::lemma_value_fits(total);
        }
        while i < self.items.len()
            invariant
                self@ == self.items@,
                vals == values(self@),
                i <= self@.len(),
                total.value() == sum_of(vals.take(i as int)),
                forall|k: int| 0 <= k <= i ==> T::fits(#[trigger] sum_of(vals.take(k))),
            decreases self@.len() - i,
        {
            let item = self.items[i];
            proof {
                let next = vals.take(i + 1);
                assert(next.drop_last() =~= vals.take(i as int));
            }
            match total.checked_plus(&item) {
                Some(t) => {
                    total = t;
                },
                None => {
                    proof {
                        assert(!T::fits(sum_of(vals.take(i + 1))));
                    }
                    return None;
                },
            }
            i += 1;
        }
        assert(vals.take(self@.len() as int) =~= vals);
        Some(total)
    }

    /// Sum of the values, from zero.
    pub fn sum(&self) -> (r: T)
        requires
            sums_fit(self@),
        ensures
            r.value() == sum_of(values(self@)),
    {
        let ghost vals = values(self@);
        let mut total = T::zero();
        let mut i: usize = 0;
        proof {
            assert(vals.take(0) =~= Seq::<int>::empty());
        }
        while i < self.items.len()
            invariant
                self@ == self.items@,
                vals == values(self@),
                sums_fit(self@),
                i <= self@.len(),
                total.value() == sum_of(vals.take(i as int)),
            decreases self@.len() - i,
        {
            let item = self.items[i];
            proof {
                let next = vals.take(i + 1);
                assert(next.drop_last() =~= vals.take(i as int));
                assert(T::fits(sum_of(next)));
            }
            total = total.plus(&item);
            i += 1;
        }
        assert(vals.take(self@.len() as int) =~= vals);
        total
    }
}

} // verus!
