//! Stripes alternating along the x-axis.

use vstd::prelude::*;
use crate::color::Color;
use crate::fx::{FX_SCALE, even64};
use crate::tuple::Tuple4;

verus! {

/// The first color where the floor of x is even, the second where odd.
pub open spec fn spec_stripe_at(point: Tuple4, a: Color, b: Color) -> Color {
    if (point.x.raw as int / FX_SCALE as int) % 2 == 0 {
        a
    } else {
        b
    }
}

/// The stripe color at a texture-space point.
pub fn evaluate(point: Tuple4, a: Color, b: Color) -> (r: Color)
    ensures
        r == spec_stripe_at(point, a, b),
{
    if even64(point.x.floor_units()) {
        a
    } else {
        b
    }
}

} // verus!
