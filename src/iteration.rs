//! Iteration over a collection with adapters: keep some items, change them,
//! collect the result.
use vstd::prelude::*;
use crate::stats::{Arithmetic, values};

verus! {

/// The values of `s` that are greater than zero, each increased by `d`, in
/// order.
pub open spec fn shifted_positives(s: Seq<int>, d: int) -> Seq<int> {
    s.filter(|v: int| v > 0).map_values(|v: int| v + d)
}

/// Keeps the items of `c` that are greater than zero, adds `i` to each, and
/// collects them in order.
pub fn demo_adapters<I: Arithmetic>(c: &[I], i: I) -> (r: Vec<I>)
    requires
        forall|k: int|
            0 <= k < c@.len() && c@[k].value() > 0 ==> I::fits(#[trigger] c@[k].value() + i.value()),
    ensures
        values(r@) == shifted_positives(values(c@), i.value()),
{
    let def = I::zero();
    let mut out: Vec<I> = Vec::new();
    let mut k: usize = 0;
    proof {
        assert(values(c@).take(0) =~= Seq::<int>::empty());
        reveal(Seq::filter);
        assert(values(out@) =~= shifted_positives(values(c@).take(0), i.value()));
    }
    while k < c.len()
        invariant
            k <= c@.len(),
            def.value() == 0,
            forall|j: int|
                0 <= j < c@.len() && c@[j].value() > 0 ==> I::fits(#[trigger] c@[j].value() + i.value()),
            values(out@) == shifted_positives(values(c@).take(k as int), i.value()),
        decreases c@.len() - k,
    {
        let item = c[k];
        let ghost prev = values(c@).take(k as int);
        proof {
            assert(values(c@).take(k + 1) =~= prev.push(item.value()));
            prev.lemma_filter_push(item.value(), |v: int| v > 0);
        }
        if def.less(&item) {
            let ghost before = out@;
            let moved = item.plus(&i);
            out.push(moved);
            proof {
                assert(values(out@) =~= values(before).push(moved.value()));
                assert(prev.push(item.value()).filter(|v: int| v > 0).map_values(|v: int| v + i.value())
                    =~= prev.filter(|v: int| v > 0).map_values(|v: int| v + i.value()).push(
                    item.value() + i.value()));
            }
        }
        k += 1;
    }
    assert(values(c@).take(c@.len() as int) =~= values(c@));
    out
}

/// Replaces each item of `v`, in order, by what `f` makes of it.
pub fn demo_vec_iter_mut_for<T, F: Fn(&T) -> T>(v: &mut Vec<T>, f: F)
    requires
        forall|x: &T| #[trigger] f.requires((x,)),
    ensures
        final(v)@.len() == old(v)@.len(),
        forall|i: int| 0 <= i < old(v)@.len() ==> f.ensures((&old(v)@[i],), #[trigger] final(v)@[i]),
{
    let mut i: usize = 0;
    while i < v.len()
        invariant
            i <= v@.len(),
            v@.len() == old(v)@.len(),
            forall|x: &T| #[trigger] f.requires((x,)),
            forall|j: int| 0 <= j < i ==> f.ensures((&old(v)@[j],), #[trigger] v@[j]),
            forall|j: int| i <= j < v@.len() ==> v@[j] == old(v)@[j],
        decreases v@.len() - i,
    {
        let next = f(&v[i]);
        v.set(i, next);
        i += 1;
    }
}

} // verus!
