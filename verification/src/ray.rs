//! Rays: an origin point and a direction vector.

use vstd::prelude::*;
use crate::fx::{Fx, fx_add, fx_mul};
use crate::matrix::{Matrix4, spec_mat4_mul_tuple};
use crate::tuple::Tuple4;

verus! {

/// A ray in homogeneous coordinates.
#[derive(Copy, Clone, Debug, PartialEq, Eq, Structural)]
pub struct Ray {
    pub origin: Tuple4,
    pub direction: Tuple4,
}

/// The point at parametric distance `t` along the ray:
/// `origin + direction * t`.
pub open spec fn spec_position(r: Ray, t: Fx) -> Tuple4 {
    Tuple4 {
        x: Fx {
            raw: fx_add(r.origin.x.raw as int, fx_mul(r.direction.x.raw as int, t.raw as int)) as i64,
        },
        y: Fx {
            raw: fx_add(r.origin.y.raw as int, fx_mul(r.direction.y.raw as int, t.raw as int)) as i64,
        },
        z: Fx {
            raw: fx_add(r.origin.z.raw as int, fx_mul(r.direction.z.raw as int, t.raw as int)) as i64,
        },
        w: Fx {
            raw: fx_add(r.origin.w.raw as int, fx_mul(r.direction.w.raw as int, t.raw as int)) as i64,
        },
    }
}

/// Constructs a Ray with the given origin and direction.
pub fn ray(origin: Tuple4, direction: Tuple4) -> (r: Ray)
    ensures
        r == (Ray { origin, direction }),
{
    Ray { origin, direction }
}

impl Ray {
    /// Computes the point at the given distance t along the ray.
    pub fn position(&self, t: Fx) -> (p: Tuple4)
        ensures
            p == spec_position(*self, t),
    {
        self.origin.add(self.direction.scale(t))
    }

    /// Returns a new ray with the given transformation matrix applied to
    /// origin and direction.
    pub fn transform(&self, matrix: Matrix4) -> (r: Ray)
        ensures
            r.origin == spec_mat4_mul_tuple(matrix, self.origin),
            r.direction == spec_mat4_mul_tuple(matrix, self.direction),
    {
        Ray { origin: matrix.mul_tuple(self.origin), direction: matrix.mul_tuple(self.direction) }
    }
}

} // verus!
