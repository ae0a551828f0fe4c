//! The random draws the library makes, taken from the `rand` crate.
//!
//! Nothing in this file is proved: each contract below records what the
//! documentation and source of `rand` say about the function it stands for.

use vstd::prelude::*;
use rand::rngs::ThreadRng;
use rand::RngExt;

verus! {

/// `rand::rngs::ThreadRng`, the handle to a thread's random number generator.
/// Its contents are not visible to the verifier.
#[verifier::external_type_specification]
#[verifier::external_body]
pub struct ExThreadRng(rand::rngs::ThreadRng);

/// `rand::rng`: a handle to the generator of the calling thread. Nothing is
/// claimed about the handle. The call fails only if the operating system
/// cannot seed the generator the first time a thread asks for it.
#[verifier::external_body]
pub(crate) fn thread_rng() -> ThreadRng {
    rand::rng()
}

/// `RngExt::random_ratio`: a draw that is `true` with probability
/// `numerator / denominator`. The outcome is only known at the two ends:
/// a numerator of zero always gives `false`, and a numerator equal to the
/// denominator always gives `true`. `rand` panics on a zero denominator and
/// on a numerator above the denominator, so both are excluded here.
#[verifier::external_body]
pub(crate) fn random_ratio(rng: &mut ThreadRng, numerator: u32, denominator: u32) -> (hit: bool)
    requires
        denominator > 0,
        numerator <= denominator,
    ensures
        numerator == 0 ==> !hit,
        numerator == denominator ==> hit,
{
    rng.random_ratio(numerator, denominator)
}

/// `RngExt::random_range` on a half-open range of `usize`: some value of
/// the range `low..high`. `rand` panics on an empty range, which is excluded
/// here.
#[verifier::external_body]
pub(crate) fn random_range(rng: &mut ThreadRng, low: usize, high: usize) -> (value: usize)
    requires
        low < high,
    ensures
        low <= value < high,
{
    rng.random_range(low..high)
}

} // verus!
