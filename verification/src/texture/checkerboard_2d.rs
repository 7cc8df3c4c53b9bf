//! A checkerboard over the x-z plane.

use vstd::prelude::*;
use crate::color::Color;
use crate::fx::{FX_SCALE, even64};
use crate::tuple::Tuple4;

verus! {

/// The first color where the floors of x and z sum to an even value: the
/// halved sum has no fractional part exactly on the even squares.
pub open spec fn spec_checkerboard_2d_at(point: Tuple4, a: Color, b: Color) -> Color {
    let c = point.x.raw as int / FX_SCALE as int + point.z.raw as int / FX_SCALE as int;
    if c % 2 == 0 {
        a
    } else {
        b
    }
}

/// The checkerboard color at a texture-space point.
pub fn evaluate(point: Tuple4, a: Color, b: Color) -> (r: Color)
    ensures
        r == spec_checkerboard_2d_at(point, a, b),
{
    let c = point.x.floor_units() + point.z.floor_units();
    if even64(c) {
        a
    } else {
        b
    }
}

} // verus!
