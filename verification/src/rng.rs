//! The engine's only source of randomness: serve directions and the
//! vertical spread of serves and deflections.

use vstd::prelude::*;

verus! {

/// Relies on rand::random_range (the thread-local generator): the
/// result lies in the given half-open range. The function panics only
/// on an empty range, which the precondition rules out.
#[verifier::external_body]
pub(crate) fn rand_i64_in(lo: i64, hi: i64) -> (r: i64)
    requires
        lo < hi,
    ensures
        lo <= r < hi,
{
    rand::random_range(lo..hi)
}

/// Relies on rand::random::<bool>: a coin flip. Nothing is promised
/// of the outcome.
#[verifier::external_body]
pub(crate) fn rand_coin() -> bool {
    rand::random()
}

} // verus!
