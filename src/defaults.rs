//! Default values of a generic item type.
use vstd::prelude::*;

verus! {

/// `x` is a value that `T::default()` may return.
pub open spec fn is_default<T: Default>(x: T) -> bool {
    call_ensures(T::default, (), x)
}

/// A vector of `n` default values.
pub fn default_vec<T: Default>(n: usize) -> (r: Vec<T>)
    ensures
        r@.len() == n,
        forall|i: int| 0 <= i < n ==> is_default(#[trigger] r@[i]),
{
    let mut v: Vec<T> = Vec::new();
    let mut i: usize = 0;
    while i < n
        invariant
            i <= n,
            v@.len() == i,
            forall|j: int| 0 <= j < i ==> is_default(#[trigger] v@[j]),
        decreases n - i,
    {
        v.push(T::default());
        i += 1;
    }
    v
}

} // verus!
