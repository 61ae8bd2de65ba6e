//! Random choices, drawn from the thread's generator of the `rand` crate.
use vstd::prelude::*;
use rand::Rng;

verus! {

/// Calls `Rng::gen_range(0..len)` on the thread's generator: an index
/// below `len`, which must be positive (the crate panics on an empty range).
/// Which index comes out is chance, so nothing more is promised.
#[verifier::external_body]
pub(crate) fn random_index(len: usize) -> (r: usize)
    requires
        len > 0,
    ensures
        r < len,
{
    rand::thread_rng().gen_range(0..len)
}

/// Calls `Rng::gen_range(0..=max)` on the thread's generator: a number from
/// 0 to `max` inclusive, by chance.
#[verifier::external_body]
pub(crate) fn random_up_to(max: u64) -> (r: u64)
    ensures
        r <= max,
{
    rand::thread_rng().gen_range(0..=max)
}

} // verus!
