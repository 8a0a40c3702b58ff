//! The only randomness the engine uses: drawing a coordinate from a
//! half-open range. Everything that consumes a drawn value is verified for
//! every value the range admits.

use vstd::prelude::*;

verus! {

/// rand's thread-local generator, declared opaquely so a handle to it can
/// pass through verified signatures.
#[verifier::external_type_specification]
#[verifier::external_body]
pub struct ExThreadRng(rand::rngs::ThreadRng);

/// Relies on rand::thread_rng: hands back a lazily-seeded generator for the
/// calling thread. Nothing is assumed about it.
#[verifier::external_body]
pub(crate) fn fresh_rng() -> rand::rngs::ThreadRng {
    rand::thread_rng()
}

/// Relies on rand::Rng::gen_range over a half-open u32 range, which panics
/// on an empty range and otherwise returns a value inside it.
#[verifier::external_body]
pub(crate) fn sample_in_range(rng: &mut rand::rngs::ThreadRng, lo: u32, hi: u32) -> (r: u32)
    requires
        lo < hi,
    ensures
        lo <= r < hi,
{
    rand::Rng::gen_range(rng, lo..hi)
}

} // verus!
