//! The narrow trusted boundary to the random-number source.  Nothing is
//! promised of a drawn byte: every caller is verified for every value
//! the source could hand back.

use vstd::prelude::*;

verus! {

/// rand's small, non-cryptographic generator, held opaquely inside the
/// interpreter as its random port.
#[verifier::external_type_specification]
#[verifier::external_body]
pub struct ExSmallRng(rand::rngs::SmallRng);

/// Relies on rand's `RngCore::next_u32` for `SmallRng`: one
/// pseudo-random draw, truncated to a byte.  No contract: the value
/// depends on the generator's state, so callers must accept any byte.
#[verifier::external_body]
pub(crate) fn next_rand_byte(rng: &mut rand::rngs::SmallRng) -> u8 {
    rand::RngCore::next_u32(rng) as u8
}

} // verus!
