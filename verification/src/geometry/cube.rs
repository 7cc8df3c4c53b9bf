//! The unit cube at the local origin: faces at plus and minus one on each
//! axis.

use vstd::prelude::*;
use crate::fx::{Fx, FX_SCALE, ssub, smul, sdiv, sabs, smin, smax};
use crate::intersections::{
    Intersections, lemma_push_keeps_order, spec_intersections_new, spec_ordered, spec_push,
};
use crate::ray::Ray;
use crate::tuple::{Tuple4, svec, vector3};

verus! {

/// Where the ray enters and leaves the slab between the two faces on one
/// axis. A direction component of zero saturates the reciprocal, standing
/// in for an infinite distance.
pub open spec fn spec_check_axis(origin: Fx, direction: Fx) -> (Fx, Fx) {
    let inv_d = sdiv(Fx { raw: FX_SCALE }, direction);
    if inv_d.raw >= 0 {
        (
            smul(ssub(Fx { raw: (-FX_SCALE) as i64 }, origin), inv_d),
            smul(ssub(Fx { raw: FX_SCALE }, origin), inv_d),
        )
    } else {
        (
            smul(ssub(Fx { raw: FX_SCALE }, origin), inv_d),
            smul(ssub(Fx { raw: (-FX_SCALE) as i64 }, origin), inv_d),
        )
    }
}

/// The ray hits the cube where the latest slab entry comes before the
/// earliest slab exit.
pub open spec fn spec_cube_intersect(ray: Ray) -> Intersections {
    let xt = spec_check_axis(ray.origin.x, ray.direction.x);
    let yt = spec_check_axis(ray.origin.y, ray.direction.y);
    let zt = spec_check_axis(ray.origin.z, ray.direction.z);
    let tmin = smax(smax(xt.0, yt.0), zt.0);
    let tmax = smin(smin(xt.1, yt.1), zt.1);
    if tmin.raw <= tmax.raw {
        spec_push(spec_push(spec_intersections_new(), tmin), tmax)
    } else {
        spec_intersections_new()
    }
}

/// The cube's normal points along the axis of the component with the
/// largest magnitude.
pub open spec fn spec_cube_normal_at(point: Tuple4) -> Tuple4 {
    let maxc = smax(smax(sabs(point.x), sabs(point.y)), sabs(point.z));
    if maxc == sabs(point.x) {
        svec(point.x, Fx { raw: 0 }, Fx { raw: 0 })
    } else if maxc == sabs(point.y) {
        svec(Fx { raw: 0 }, point.y, Fx { raw: 0 })
    } else {
        svec(Fx { raw: 0 }, Fx { raw: 0 }, point.z)
    }
}

/// Intersects a local-space ray with the unit cube.
pub fn intersect(ray: Ray) -> (r: Intersections)
    ensures
        r == spec_cube_intersect(ray),
{
    let (xtmin, xtmax) = check_axis(ray.origin.x, ray.direction.x);
    let (ytmin, ytmax) = check_axis(ray.origin.y, ray.direction.y);
    let (ztmin, ztmax) = check_axis(ray.origin.z, ray.direction.z);

    let tmin = xtmin.max(ytmin).max(ztmin);
    let tmax = xtmax.min(ytmax).min(ztmax);
    let mut result = Intersections::new();

    if tmin.raw <= tmax.raw {
        result.push(tmin);
        result.push(tmax);
    }

    result
}

/// The cube's hits come out in ascending parametric order.
pub proof fn lemma_cube_intersect_ordered(ray: Ray)
    ensures
        spec_ordered(spec_cube_intersect(ray)),
{
    let xt = spec_check_axis(ray.origin.x, ray.direction.x);
    let yt = spec_check_axis(ray.origin.y, ray.direction.y);
    let zt = spec_check_axis(ray.origin.z, ray.direction.z);
    let tmin = smax(smax(xt.0, yt.0), zt.0);
    let tmax = smin(smin(xt.1, yt.1), zt.1);
    if tmin.raw <= tmax.raw {
        lemma_push_keeps_order(spec_intersections_new(), tmin);
        lemma_push_keeps_order(spec_push(spec_intersections_new(), tmin), tmax);
    }
}

/// The surface normal at a local-space point.
pub fn normal_at(point: Tuple4) -> (r: Tuple4)
    ensures
        r == spec_cube_normal_at(point),
{
    let maxc = point.x.abs().max(point.y.abs()).max(point.z.abs());
    if maxc.raw == point.x.abs().raw {
        vector3(point.x, Fx::zero(), Fx::zero())
    } else if maxc.raw == point.y.abs().raw {
        vector3(Fx::zero(), point.y, Fx::zero())
    } else {
        vector3(Fx::zero(), Fx::zero(), point.z)
    }
}

// Cube intersection helper.
fn check_axis(origin: Fx, direction: Fx) -> (r: (Fx, Fx))
    ensures
        r == spec_check_axis(origin, direction),
{
    let inv_d = Fx::one().div(direction);
    let t0: Fx;
    let t1: Fx;
    if inv_d.raw >= 0 {
        t0 = Fx::one().neg().sub(origin).mul(inv_d);
        t1 = Fx::one().sub(origin).mul(inv_d);
    } else {
        t1 = Fx::one().neg().sub(origin).mul(inv_d);
        t0 = Fx::one().sub(origin).mul(inv_d);
    }
    (t0, t1)
}

} // verus!
