//! A standalone unit sphere with a direct ray intersection routine.

use vstd::prelude::*;
use crate::fx::{Fx, FX_SCALE, sadd, ssub, sneg, smul, sdiv, sabs, ssqrt};
use crate::geometry::GEOM_EPS_RAW;
use crate::ray::Ray;
use crate::tuple::{Tuple4, point3, sdot, stsub};

verus! {

/// A unit sphere centered at the origin.
pub struct Sphere {}

/// Constructs a unit sphere centered at the origin (0, 0, 0).
pub fn sphere() -> (r: Sphere)
    ensures
        r == (Sphere {  }),
{
    Sphere {  }
}

/// The two roots of the sphere's quadratic, with the full `2a`, `2b`
/// normalization, or nothing where the discriminant is negative. A
/// discriminant within the tolerance of zero is snapped to zero, so a
/// grazing ray still yields its tangent point.
pub open spec fn spec_sphere_hits(ray: Ray) -> Option<(Fx, Fx)> {
    let origin = Tuple4 {
        x: Fx { raw: 0 },
        y: Fx { raw: 0 },
        z: Fx { raw: 0 },
        w: Fx { raw: FX_SCALE },
    };
    let sphere_to_ray = stsub(ray.origin, origin);
    let a = sdot(ray.direction, ray.direction);
    let b = smul(Fx { raw: (2 * FX_SCALE) as i64 }, sdot(ray.direction, sphere_to_ray));
    let c = ssub(sdot(sphere_to_ray, sphere_to_ray), Fx { raw: FX_SCALE });
    let d0 = ssub(smul(b, b), smul(smul(Fx { raw: (4 * FX_SCALE) as i64 }, a), c));
    let discriminant = if sabs(d0).raw < GEOM_EPS_RAW {
        Fx { raw: 0 }
    } else {
        d0
    };
    if discriminant.raw < 0 {
        None
    } else {
        let two_a = smul(Fx { raw: (2 * FX_SCALE) as i64 }, a);
        let t1 = sdiv(ssub(sneg(b), ssqrt(discriminant)), two_a);
        let t2 = sdiv(sadd(sneg(b), ssqrt(discriminant)), two_a);
        Some((t1, t2))
    }
}

impl Sphere {
    /// Returns the collection of t values where the ray intersects the
    /// sphere.
    ///
    /// In the case where two unique intersections are found, the lesser
    /// value of t will come first.
    pub fn intersect(&self, ray: Ray) -> (r: Option<(Fx, Fx)>)
        ensures
            r == spec_sphere_hits(ray),
    {
        // The vector from the sphere's center, to the ray origin
        // (remember: the sphere is centered at the world origin)
        let sphere_to_ray = ray.origin.sub(point3(Fx::zero(), Fx::zero(), Fx::zero()));

        let two = Fx { raw: (2 * FX_SCALE) as i64 };
        let four = Fx { raw: (4 * FX_SCALE) as i64 };
        let a = ray.direction.dot(ray.direction);
        let b = two.mul(ray.direction.dot(sphere_to_ray));
        let c = sphere_to_ray.dot(sphere_to_ray).sub(Fx::one());

        let mut discriminant = b.mul(b).sub(four.mul(a).mul(c));

        if discriminant.abs().raw < GEOM_EPS_RAW {
            discriminant = Fx::zero();
        }

        if discriminant.raw < 0 {
            None
        } else {
            let two_a = two.mul(a);
            let t1 = b.neg().sub(discriminant.sqrt()).div(two_a);
            let t2 = b.neg().add(discriminant.sqrt()).div(two_a);
            Some((t1, t2))
        }
    }
}

} // verus!
