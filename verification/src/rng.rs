//! Random cell generation, through the `rand` crate.
use rand::RngExt;
use vstd::prelude::*;

verus! {

/// Declares `rand`'s thread-local generator type so that values of it can
/// cross verified signatures; Verus treats such a value as opaque.
#[verifier::external_type_specification]
#[verifier::external_body]
pub struct ExThreadRng(rand::rngs::ThreadRng);

/// Relies on `rand::rng`, which hands out the calling thread's generator.
#[verifier::external_body]
pub(crate) fn fresh_rng() -> rand::rngs::ThreadRng {
    rand::rng()
}

/// Relies on `rand::RngExt::random_range`: it returns a value drawn from the
/// given range, and panics only on an empty range, which the precondition
/// rules out.
#[verifier::external_body]
pub(crate) fn draw_in_range(rng: &mut rand::rngs::ThreadRng, lo: i32, hi: i32) -> (r: i32)
    requires
        lo < hi,
    ensures
        lo <= r < hi,
{
    rng.random_range(lo..hi)
}

} // verus!
