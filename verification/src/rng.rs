//! Random draws for the white-noise texture, backed by a seeded generator
//! from the `rand` crate.

use vstd::prelude::*;
use crate::fx::{Fx, FX_SCALE};

verus! {

#[verifier::external_type_specification]
#[verifier::external_body]
pub struct ExSmallRng(rand::rngs::SmallRng);

/// Relies on rand's `Rng::gen`: one draw from the generator. Nothing can
/// be promised of a random value.
#[verifier::external_body]
fn rng_next_u32(rng: &mut rand::rngs::SmallRng) -> u32 {
    rand::Rng::gen::<u32>(rng)
}

/// One random scalar in `[0, 1)`.
pub fn random_unit(rng: &mut rand::rngs::SmallRng) -> (r: Fx)
    ensures
        0 <= r.raw < FX_SCALE,
{
    let v = rng_next_u32(rng);
    Fx { raw: (v % 10_000_000u32) as i64 }
}

} // verus!
