//! Calls whose results are known by where they come from.

use vstd::prelude::*;

verus! {

/// Calls a function without arguments, and keeps of the result that the
/// function returned it.
pub(crate) fn outcome<B>(f: impl FnOnce() -> B) -> (b: B)
    requires
        call_requires(f, ()),
    ensures
        call_ensures(f, (), b),
{
    f()
}

/// Calls a function on one argument, and keeps of the result that the function
/// returned it for this argument.
pub(crate) fn outcome_of<A, B>(f: impl FnOnce(A) -> B, a: A) -> (b: B)
    requires
        call_requires(f, (a,)),
    ensures
        call_ensures(f, (a,), b),
{
    f(a)
}

/// Calls a function on two arguments, and keeps of the result that the
/// function returned it for these arguments.
pub(crate) fn outcome_of_both<A, B, C>(f: impl FnOnce(A, B) -> C, a: A, b: B) -> (c: C)
    requires
        call_requires(f, (a, b)),
    ensures
        call_ensures(f, (a, b), c),
{
    f(a, b)
}

} // verus!
