use rand::Rng;
use vstd::prelude::*;

verus! {

/// rand's per-thread generator, carried through opaquely.
#[verifier::external_type_specification]
#[verifier::external_body]
pub struct ExThreadRng(rand::rngs::ThreadRng);

/// Relies on rand::thread_rng: hands out the thread's generator; nothing is
/// known of its state.
pub assume_specification[ rand::thread_rng ]() -> rand::rngs::ThreadRng;

/// Relies on rand::Rng::gen_range over an inclusive range: the value lies in
/// `[low, high]`; the range is never empty here, on which it would panic.
#[verifier::external_body]
pub(crate) fn draw_inclusive(rng: &mut rand::rngs::ThreadRng, low: u64, high: u64) -> (r: u64)
    requires
        low <= high,
    ensures
        low <= r <= high,
{
    rng.gen_range(low..=high)
}

} // verus!
