//! The random source that seeds a palette.

use rand::rngs::ThreadRng;
use rand::Rng;
use vstd::prelude::*;

verus! {

/// `rand::rngs::ThreadRng`, the handle to the calling thread's random number
/// generator. It is carried from `rand::thread_rng` to `Rng::gen_range` and
/// nothing is known of what it holds.
#[verifier::external_type_specification]
#[verifier::external_body]
pub struct ExThreadRng(ThreadRng);

/// `rand::thread_rng` hands out the calling thread's generator, set up on
/// first use from the operating system's entropy. Nothing is claimed of the
/// handle. Where the operating system cannot supply entropy, the first call on
/// a thread panics.
pub assume_specification[ rand::thread_rng ]() -> (rng: ThreadRng);

/// `Rng::gen_range` on `u32` bounds: a draw from the half-open range
/// `low..high`. It panics unless `low < high`, so callers must show that.
/// The contract claims only that the draw lies in the range; which value comes
/// out is left open, and two draws from one range may differ.
#[verifier::external_body]
pub(crate) fn gen_range(rng: &mut ThreadRng, low: u32, high: u32) -> (drawn: u32)
    requires
        low < high,
    ensures
        low <= drawn < high,
{
    rng.gen_range(low, high)
}

} // verus!
