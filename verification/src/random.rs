//! The source of the digits that are drawn when a PESEL number is made.

use vstd::prelude::*;
use rand::rngs::ThreadRng;
use rand::Rng;

verus! {

/// `rand::rngs::ThreadRng`, the handle to the generator of the running
/// thread. Nothing is known of what it holds.
#[verifier::external_type_specification]
#[verifier::external_body]
pub struct ExThreadRng(ThreadRng);

/// `rand::thread_rng` hands out the generator of the running thread. Nothing
/// is claimed of it. It panics where the system gives no seed for the
/// generator, which no argument can prevent.
pub assume_specification[ rand::thread_rng ]() -> ThreadRng;

/// A number drawn from the generator, at least 0 and below `bound`.
///
/// Calls `rand::Rng::gen_range` with the bounds 0 and `bound`. Not proved:
/// that the number drawn lies in that half-open range, as the documentation
/// of `gen_range` says. Which number is drawn is left open. `gen_range`
/// panics on an empty range, so `bound` must be positive.
#[verifier::external_body]
pub(crate) fn random_below(rng: &mut ThreadRng, bound: u8) -> (value: u8)
    requires
        bound > 0,
    ensures
        value < bound,
{
    rng.gen_range(0, bound)
}

} // verus!
