//! The plane `y == 0` in local space.

use vstd::prelude::*;
use crate::fx::{Fx, sabs, sdiv, sneg};
use crate::geometry::GEOM_EPS_RAW;
use crate::intersections::{
    Intersections, lemma_push_keeps_order, spec_intersections_new, spec_ordered, spec_push,
};
use crate::ray::Ray;
use crate::tuple::{Tuple4, svec, vector3};

verus! {

/// A ray whose vertical motion is below the parallel tolerance runs level
/// with the plane and never crosses it; any other ray crosses once, at the
/// distance where its height reaches zero.
pub open spec fn spec_plane_intersect(ray: Ray) -> Intersections {
    if sabs(ray.direction.y).raw >= GEOM_EPS_RAW {
        spec_push(spec_intersections_new(), sdiv(sneg(ray.origin.y), ray.direction.y))
    } else {
        spec_intersections_new()
    }
}

/// The plane's normal is constant.
pub open spec fn spec_plane_normal_at(point: Tuple4) -> Tuple4 {
    svec(Fx { raw: 0 }, Fx { raw: crate::fx::FX_SCALE }, Fx { raw: 0 })
}

/// Intersects a local-space ray with the plane.
pub fn intersect(ray: Ray) -> (r: Intersections)
    ensures
        r == spec_plane_intersect(ray),
{
    let mut result = Intersections::new();

    if ray.direction.y.abs().raw >= GEOM_EPS_RAW {
        result.push(ray.origin.y.neg().div(ray.direction.y));
    }

    result
}

/// The plane's hits come out in ascending parametric order.
pub proof fn lemma_plane_intersect_ordered(ray: Ray)
    ensures
        spec_ordered(spec_plane_intersect(ray)),
{
    if sabs(ray.direction.y).raw >= GEOM_EPS_RAW {
        lemma_push_keeps_order(
            spec_intersections_new(),
            sdiv(sneg(ray.origin.y), ray.direction.y),
        );
    }
}

/// The surface normal at a local-space point.
pub fn normal_at(_point: Tuple4) -> (r: Tuple4)
    ensures
        r == spec_plane_normal_at(_point),
{
    vector3(Fx::zero(), Fx::one(), Fx::zero())
}

} // verus!
