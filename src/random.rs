//! Draws from the thread-local random number generator.
use vstd::prelude::*;

verus! {

/// Relies on `rand::random_range` over an inclusive range: the value lies in
/// the range, and the call panics only on an empty range, which `requires`
/// leaves out.
#[verifier::external_body]
pub(crate) fn random_between(lo: i64, hi: i64) -> (r: i64)
    requires
        lo <= hi,
    ensures
        lo <= r <= hi,
{
    rand::random_range(lo..=hi)
}

/// Relies on `rand::random::<bool>`: a coin toss; nothing is known of the outcome.
#[verifier::external_body]
pub(crate) fn random_flag() -> (r: bool) {
    rand::random::<bool>()
}

} // verus!
