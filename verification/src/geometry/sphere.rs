//! The unit sphere at the local origin.

use vstd::prelude::*;
use crate::fx::{Fx, sadd, ssub, sneg, smul, sdiv, sabs, ssqrt};
use crate::geometry::GEOM_EPS_RAW;
use crate::intersections::{
    Intersections, lemma_push_keeps_order, spec_intersections_new, spec_ordered, spec_push,
};
use crate::ray::Ray;
use crate::tuple::{Tuple4, sdot, svec};

verus! {

/// The quadratic in the ray's parameter whose roots are the two crossings
/// of the unit sphere. A discriminant within the tolerance of zero is
/// snapped to zero, so a grazing ray still yields its tangent point; a
/// negative discriminant means a miss, and otherwise the two roots are
/// recorded in order.
pub open spec fn spec_sphere_intersect(ray: Ray) -> Intersections {
    let sphere_to_ray = Tuple4 { w: Fx { raw: 0 }, ..ray.origin };
    let a = sdot(ray.direction, ray.direction);
    let b = sdot(ray.direction, sphere_to_ray);
    let c = ssub(sdot(sphere_to_ray, sphere_to_ray), Fx { raw: crate::fx::FX_SCALE });
    let d0 = sadd(smul(b, b), smul(sneg(a), c));
    let discriminant = if sabs(d0).raw < GEOM_EPS_RAW {
        Fx { raw: 0 }
    } else {
        d0
    };
    if discriminant.raw >= 0 {
        let d_sqrt = ssqrt(discriminant);
        spec_push(
            spec_push(spec_intersections_new(), sdiv(ssub(sneg(b), d_sqrt), a)),
            sdiv(sadd(sneg(b), d_sqrt), a),
        )
    } else {
        spec_intersections_new()
    }
}

/// The sphere's normal at a surface point is the point itself, taken as a
/// vector from the center.
pub open spec fn spec_sphere_normal_at(point: Tuple4) -> Tuple4 {
    svec(point.x, point.y, point.z)
}

/// Intersects a local-space ray with the unit sphere.
pub fn intersect(ray: Ray) -> (r: Intersections)
    ensures
        r == spec_sphere_intersect(ray),
{
    // The vector from the sphere's center, to the ray origin
    // (remember: the sphere is centered at the world origin)
    let mut sphere_to_ray = ray.origin;
    sphere_to_ray.w = Fx::zero();

    let a = ray.direction.dot(ray.direction);
    let b = ray.direction.dot(sphere_to_ray);
    let c = sphere_to_ray.dot(sphere_to_ray).sub(Fx::one());
    let mut discriminant = b.mul(b).add(a.neg().mul(c));

    if discriminant.abs().raw < GEOM_EPS_RAW {
        discriminant = Fx::zero();
    }

    let mut result = Intersections::new();

    if discriminant.raw >= 0 {
        let d_sqrt = discriminant.sqrt();
        result.push(b.neg().sub(d_sqrt).div(a));
        result.push(b.neg().add(d_sqrt).div(a));
    }

    result
}

/// The sphere's hits come out in ascending parametric order.
pub proof fn lemma_sphere_intersect_ordered(ray: Ray)
    ensures
        spec_ordered(spec_sphere_intersect(ray)),
{
    let sphere_to_ray = Tuple4 { w: Fx { raw: 0 }, ..ray.origin };
    let a = sdot(ray.direction, ray.direction);
    let b = sdot(ray.direction, sphere_to_ray);
    let c = ssub(sdot(sphere_to_ray, sphere_to_ray), Fx { raw: crate::fx::FX_SCALE });
    let d0 = sadd(smul(b, b), smul(sneg(a), c));
    let discriminant = if sabs(d0).raw < GEOM_EPS_RAW {
        Fx { raw: 0 }
    } else {
        d0
    };
    if discriminant.raw >= 0 {
        let d_sqrt = ssqrt(discriminant);
        lemma_push_keeps_order(spec_intersections_new(), sdiv(ssub(sneg(b), d_sqrt), a));
        lemma_push_keeps_order(
            spec_push(spec_intersections_new(), sdiv(ssub(sneg(b), d_sqrt), a)),
            sdiv(sadd(sneg(b), d_sqrt), a),
        );
    }
}

/// The surface normal at a local-space point.
pub fn normal_at(point: Tuple4) -> (r: Tuple4)
    ensures
        r == spec_sphere_normal_at(point),
{
    let mut sphere_to_point = point;
    sphere_to_point.w = Fx::zero();
    sphere_to_point
}

} // verus!
