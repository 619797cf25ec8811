//! The random source: a thread-local generator of the `rand` crate, and the
//! one way this library draws from it.

use rand::rngs::ThreadRng;
use rand::Rng;
use vstd::prelude::*;

verus! {

#[verifier::external_type_specification]
#[verifier::external_body]
pub struct ExThreadRng(rand::rngs::ThreadRng);

/// Calls `rand::Rng::gen_range` on the half-open range `low..high`.
///
/// Trusted: the call panics on an empty range, so the range must not be
/// empty, and the value that comes back lies in it. Nothing is said of which
/// value it is.
#[verifier::external_body]
pub(crate) fn sample_between(rng: &mut ThreadRng, low: i32, high: i32) -> (value: i32)
    requires
        low < high,
    ensures
        low <= value < high,
{
    rng.gen_range(low..high)
}

/// Calls `ThreadRng::default`, which hands out this thread's generator.
///
/// Trusted: nothing is claimed of the generator.
#[verifier::external_body]
pub(crate) fn thread_generator() -> (rng: ThreadRng) {
    ThreadRng::default()
}

} // verus!
