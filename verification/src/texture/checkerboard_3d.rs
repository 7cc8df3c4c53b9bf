//! A checkerboard over all three axes.

use vstd::prelude::*;
use crate::color::Color;
use crate::fx::{Fx, FX_SCALE, abs_int, even64, sadd};
use crate::tuple::Tuple4;

verus! {

/// One floor term of the three-dimensional checkerboard: the magnitude of
/// the floor of the component, nudged up by a small epsilon against
/// boundary rounding.
pub open spec fn checker_term(v: Fx) -> int {
    abs_int(sadd(v, Fx { raw: 100 }).raw as int / FX_SCALE as int)
}

/// The first color where the three floor magnitudes sum to an even value.
pub open spec fn spec_checkerboard_3d_at(point: Tuple4, a: Color, b: Color) -> Color {
    let c = checker_term(point.x) + checker_term(point.y) + checker_term(point.z);
    if c % 2 == 0 {
        a
    } else {
        b
    }
}

/// The checkerboard color at a texture-space point.
pub fn evaluate(point: Tuple4, a: Color, b: Color) -> (r: Color)
    ensures
        r == spec_checkerboard_3d_at(point, a, b),
{
    let cx = abs64(point.x.add(Fx { raw: 100 }).floor_units());
    let cy = abs64(point.y.add(Fx { raw: 100 }).floor_units());
    let cz = abs64(point.z.add(Fx { raw: 100 }).floor_units());
    let c = cx + cy + cz;
    if even64(c) {
        a
    } else {
        b
    }
}

/// The magnitude of a floor count, which always fits the machine range.
fn abs64(v: i64) -> (r: i64)
    requires
        -1_000_000_000_000 <= v <= 1_000_000_000_000,
    ensures
        r as int == abs_int(v as int),
{
    if v < 0 {
        -v
    } else {
        v
    }
}

} // verus!
