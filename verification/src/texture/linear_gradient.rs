//! A gradient blending along the x-axis.

use vstd::prelude::*;
use crate::color::{Color, scadd, scsub, scscale};
use crate::fx::{Fx, FX_SCALE, fx_tmod};
use crate::tuple::Tuple4;

verus! {

/// The first color blended toward the second by the fractional part of x.
pub open spec fn spec_linear_gradient_at(point: Tuple4, a: Color, b: Color) -> Color {
    let fraction = Fx { raw: fx_tmod(point.x.raw as int, FX_SCALE as int) as i64 };
    scadd(a, scscale(scsub(b, a), fraction))
}

/// The gradient color at a texture-space point.
pub fn evaluate(point: Tuple4, a: Color, b: Color) -> (r: Color)
    ensures
        r == spec_linear_gradient_at(point, a, b),
{
    let distance = b.sub(a);
    let fraction = point.x.fract();
    a.add(distance.scale(fraction))
}

} // verus!
