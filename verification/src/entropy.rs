//! The source of randomness that an engine call draws from.

use rand::rngs::ThreadRng;
use vstd::prelude::*;

verus! {

/// `rand::rngs::ThreadRng`, the handle to the calling thread's generator.
/// Nothing is known of what lies inside a handle, nor of what it will draw.
#[verifier::external_type_specification]
#[verifier::external_body]
pub struct ExThreadRng(rand::rngs::ThreadRng);

/// Calls `rand::thread_rng`, which hands out a handle to the generator that
/// belongs to the calling thread and is seeded by the operating system.
///
/// Nothing is claimed of the handle: what it draws differs from call to call.
/// The first call on a thread seeds the generator, and `rand` panics there if
/// the operating system cannot supply the seed.
#[verifier::external_body]
pub(crate) fn entropy_source() -> (rng: ThreadRng) {
    rand::thread_rng()
}

} // verus!
