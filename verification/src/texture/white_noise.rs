//! A texture of random brightness.

use vstd::prelude::*;
use crate::color::{Color, scscale};
use crate::fx::{Fx, FX_SCALE};
use crate::rng::random_unit;

verus! {

/// The factor color scaled by one random draw in `[0, 1)`.
pub fn evaluate(rng: &mut rand::rngs::SmallRng, factor: Color) -> (r: Color)
    ensures
        exists|u: Fx| 0 <= u.raw < FX_SCALE && r == scscale(factor, u),
{
    let u = random_unit(rng);
    let r = factor.scale(u);
    proof {
        assert(0 <= u.raw < FX_SCALE && r == scscale(factor, u));
    }
    r
}

} // verus!
