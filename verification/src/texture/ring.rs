//! Concentric rings around the y-axis.

use vstd::prelude::*;
use crate::color::Color;
use crate::fx::{FX_SCALE, even64, fx_sqrt, sadd, smul};
use crate::tuple::Tuple4;

verus! {

/// The first color where the floor of the distance from the y-axis is
/// even, the second where odd.
pub open spec fn spec_ring_at(point: Tuple4, a: Color, b: Color) -> Color {
    let d = fx_sqrt(sadd(smul(point.x, point.x), smul(point.z, point.z)).raw as int);
    if (d / FX_SCALE as int) % 2 == 0 {
        a
    } else {
        b
    }
}

/// The ring color at a texture-space point.
pub fn evaluate(point: Tuple4, a: Color, b: Color) -> (r: Color)
    ensures
        r == spec_ring_at(point, a, b),
{
    let d = point.x.mul(point.x).add(point.z.mul(point.z)).sqrt();
    if even64(d.floor_units()) {
        a
    } else {
        b
    }
}

} // verus!
