//! A gradient blending with the distance from the y-axis.

use vstd::prelude::*;
use crate::color::{Color, scadd, scsub, scscale};
use crate::fx::{Fx, FX_SCALE, fx_tmod, sadd, smul, ssqrt};
use crate::tuple::Tuple4;

verus! {

/// The first color blended toward the second by the fractional part of the
/// distance from the y-axis.
pub open spec fn spec_radial_gradient_at(point: Tuple4, a: Color, b: Color) -> Color {
    let d = ssqrt(sadd(smul(point.x, point.x), smul(point.z, point.z)));
    let fraction = Fx { raw: fx_tmod(d.raw as int, FX_SCALE as int) as i64 };
    scadd(a, scscale(scsub(b, a), fraction))
}

/// The gradient color at a texture-space point.
pub fn evaluate(point: Tuple4, a: Color, b: Color) -> (r: Color)
    ensures
        r == spec_radial_gradient_at(point, a, b),
{
    let distance = b.sub(a);
    let fraction = point.x.mul(point.x).add(point.z.mul(point.z)).sqrt().fract();
    a.add(distance.scale(fraction))
}

} // verus!
