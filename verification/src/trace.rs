//! Helpers of the engine's trace layer.

use vstd::prelude::*;

verus! {

/// Applies an optional retention predicate to one item: an absent predicate
/// retains everything.
pub fn filter<T, F: Fn(&T) -> bool>(f: &Option<F>, t: &T) -> (r: bool)
    requires
        (f matches Some(g) ==> call_requires(*g, (t,))),
    ensures
        f is None ==> r == true,
        (f matches Some(g) ==> call_ensures(*g, (t,), r)),
{
    match f {
        None => true,
        Some(g) => g(t),
    }
}

} // verus!
