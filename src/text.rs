//! Building texture names out of fragments.

use vstd::prelude::*;

verus! {

/// Relies on `<[&str]>::concat`: the result is `a` followed by `b`.
#[verifier::external_body]
pub(crate) fn join(a: &str, b: &str) -> (r: String)
    ensures
        r@ == a@ + b@,
{
    [a, b].concat()
}

} // verus!
