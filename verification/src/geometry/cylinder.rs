//! The cylinder of radius one around the local y-axis, optionally bounded
//! and capped.

use vstd::prelude::*;
use crate::fx::{Fx, FX_SCALE, sadd, ssub, sneg, smul, sdiv, sabs, ssqrt};
use crate::geometry::GEOM_EPS_RAW;
use crate::intersections::{
    Intersections, lemma_push_keeps_order, spec_intersections_new, spec_ordered, spec_push,
};
use crate::ray::Ray;
use crate::tuple::{Tuple4, svec, vector3};

verus! {

/// Whether the ray at distance `t` lies within radius one of the y-axis,
/// with a small tolerance.
pub open spec fn spec_check_cap(ray: Ray, t: Fx) -> bool {
    let x = sadd(smul(ray.direction.x, t), ray.origin.x);
    let z = sadd(smul(ray.direction.z, t), ray.origin.z);
    sadd(smul(x, x), smul(z, z)).raw <= FX_SCALE + GEOM_EPS_RAW
}

/// The cap hits added for a closed cylinder: where the ray meets the planes
/// of the two ends within radius one.
pub open spec fn spec_intersect_caps(ray: Ray, s: Intersections, min: Fx, max: Fx, closed: bool)
    -> Intersections {
    if !closed || sabs(ray.direction.y).raw < GEOM_EPS_RAW {
        s
    } else {
        let inv_y = sdiv(Fx { raw: FX_SCALE }, ray.direction.y);
        let tmin = smul(ssub(min, ray.origin.y), inv_y);
        let s1 = if spec_check_cap(ray, tmin) {
            spec_push(s, tmin)
        } else {
            s
        };
        let tmax = smul(ssub(max, ray.origin.y), inv_y);
        if spec_check_cap(ray, tmax) {
            spec_push(s1, tmax)
        } else {
            s1
        }
    }
}

/// The body hits: the quadratic in x and z, its roots kept where their
/// height lies strictly between the bounds; then the cap hits. A ray
/// parallel to the axis skips the body; a negative discriminant means the
/// body (and, in this routine, the caps too) is missed.
pub open spec fn spec_cylinder_intersect(ray: Ray, min: Fx, max: Fx, closed: bool)
    -> Intersections {
    let s = spec_intersections_new();
    let a = sadd(smul(ray.direction.x, ray.direction.x), smul(ray.direction.z, ray.direction.z));
    if sabs(a).raw >= GEOM_EPS_RAW {
        let b = sadd(smul(ray.origin.x, ray.direction.x), smul(ray.origin.z, ray.direction.z));
        let c = sadd(
            smul(ray.origin.x, ray.origin.x),
            sadd(smul(ray.origin.z, ray.origin.z), Fx { raw: (-FX_SCALE) as i64 }),
        );
        let d0 = sadd(smul(b, b), smul(sneg(a), c));
        let discriminant = if sabs(d0).raw < GEOM_EPS_RAW {
            Fx { raw: 0 }
        } else {
            d0
        };
        if discriminant.raw < 0 {
            s
        } else {
            let inv_a = sdiv(Fx { raw: FX_SCALE }, a);
            let d_sqrt = ssqrt(discriminant);
            let t0 = smul(ssub(sneg(b), d_sqrt), inv_a);
            let t1 = smul(sadd(sneg(b), d_sqrt), inv_a);
            let tmin = if t0.raw < t1.raw {
                t0
            } else {
                t1
            };
            let tmax = if t0.raw < t1.raw {
                t1
            } else {
                t0
            };
            let ymin = sadd(smul(ray.direction.y, tmin), ray.origin.y);
            let ymax = sadd(smul(ray.direction.y, tmax), ray.origin.y);
            let s1 = if min.raw < ymin.raw && ymin.raw < max.raw {
                spec_push(s, tmin)
            } else {
                s
            };
            let s2 = if min.raw < ymax.raw && ymax.raw < max.raw {
                spec_push(s1, tmax)
            } else {
                s1
            };
            spec_intersect_caps(ray, s2, min, max, closed)
        }
    } else {
        spec_intersect_caps(ray, s, min, max, closed)
    }
}

/// The normal: straight up or down within radius one of an end, else the
/// radial direction.
pub open spec fn spec_cylinder_normal_at(point: Tuple4, min: Fx, max: Fx) -> Tuple4 {
    let d2 = sadd(smul(point.x, point.x), smul(point.z, point.z));
    if d2.raw < FX_SCALE && point.y.raw >= ssub(max, Fx { raw: GEOM_EPS_RAW }).raw {
        svec(Fx { raw: 0 }, Fx { raw: FX_SCALE }, Fx { raw: 0 })
    } else if d2.raw < FX_SCALE && point.y.raw <= sadd(min, Fx { raw: GEOM_EPS_RAW }).raw {
        svec(Fx { raw: 0 }, Fx { raw: (-FX_SCALE) as i64 }, Fx { raw: 0 })
    } else {
        svec(point.x, Fx { raw: 0 }, point.z)
    }
}

/// Intersects a local-space ray with the cylinder.
pub fn intersect(ray: Ray, min: Fx, max: Fx, closed: bool) -> (r: Intersections)
    ensures
        r == spec_cylinder_intersect(ray, min, max, closed),
{
    let mut result = Intersections::new();

    let a = ray.direction.x.mul(ray.direction.x).add(ray.direction.z.mul(ray.direction.z));

    if a.abs().raw >= GEOM_EPS_RAW {
        // Ray is not parallel to the y-axis.
        let b = ray.origin.x.mul(ray.direction.x).add(ray.origin.z.mul(ray.direction.z));
        let c = ray.origin.x.mul(ray.origin.x).add(
            ray.origin.z.mul(ray.origin.z).add(Fx::one().neg()),
        );

        let mut discriminant = b.mul(b).add(a.neg().mul(c));

        if discriminant.abs().raw < GEOM_EPS_RAW {
            discriminant = Fx::zero();
        }

        if discriminant.raw < 0 {
            // Ray does not intersect the cylinder.
            return result;
        }

        let inv_a = Fx::one().div(a);
        let d_sqrt = discriminant.sqrt();
        let ta = b.neg().sub(d_sqrt).mul(inv_a);
        let tb = b.neg().add(d_sqrt).mul(inv_a);
        let (tmin, tmax) = if ta.raw < tb.raw {
            (ta, tb)
        } else {
            (tb, ta)
        };

        let ymin = ray.direction.y.mul(tmin).add(ray.origin.y);
        let ymax = ray.direction.y.mul(tmax).add(ray.origin.y);

        if min.raw < ymin.raw && ymin.raw < max.raw {
            result.push(tmin);
        }

        if min.raw < ymax.raw && ymax.raw < max.raw {
            result.push(tmax);
        }
    }

    intersect_caps(ray, &mut result, min, max, closed);

    result
}

/// The surface normal at a local-space point.
pub fn normal_at(point: Tuple4, min: Fx, max: Fx, _closed: bool) -> (r: Tuple4)
    ensures
        r == spec_cylinder_normal_at(point, min, max),
{
    // The square of the distance from the y axis.
    let d2 = point.x.mul(point.x).add(point.z.mul(point.z));

    if d2.raw < FX_SCALE && point.y.raw >= max.sub(Fx { raw: GEOM_EPS_RAW }).raw {
        // Hitting the top cap.
        vector3(Fx::zero(), Fx::one(), Fx::zero())
    } else if d2.raw < FX_SCALE && point.y.raw <= min.add(Fx { raw: GEOM_EPS_RAW }).raw {
        // Hitting the bottom cap.
        vector3(Fx::zero(), Fx::one().neg(), Fx::zero())
    } else {
        vector3(point.x, Fx::zero(), point.z)
    }
}

/// The cap hits keep the slots in ascending parametric order.
pub proof fn lemma_caps_keep_order(ray: Ray, s: Intersections, min: Fx, max: Fx, closed: bool)
    requires
        spec_ordered(s),
    ensures
        spec_ordered(spec_intersect_caps(ray, s, min, max, closed)),
{
    if closed && sabs(ray.direction.y).raw >= GEOM_EPS_RAW {
        let inv_y = sdiv(Fx { raw: FX_SCALE }, ray.direction.y);
        let tmin = smul(ssub(min, ray.origin.y), inv_y);
        let s1 = if spec_check_cap(ray, tmin) {
            spec_push(s, tmin)
        } else {
            s
        };
        if spec_check_cap(ray, tmin) {
            lemma_push_keeps_order(s, tmin);
        }
        let tmax = smul(ssub(max, ray.origin.y), inv_y);
        if spec_check_cap(ray, tmax) {
            lemma_push_keeps_order(s1, tmax);
        }
    }
}

/// The cylinder's hits come out in ascending parametric order.
pub proof fn lemma_cylinder_intersect_ordered(ray: Ray, min: Fx, max: Fx, closed: bool)
    ensures
        spec_ordered(spec_cylinder_intersect(ray, min, max, closed)),
{
    let s = spec_intersections_new();
    let a = sadd(smul(ray.direction.x, ray.direction.x), smul(ray.direction.z, ray.direction.z));
    if sabs(a).raw >= GEOM_EPS_RAW {
        let b = sadd(smul(ray.origin.x, ray.direction.x), smul(ray.origin.z, ray.direction.z));
        let c = sadd(
            smul(ray.origin.x, ray.origin.x),
            sadd(smul(ray.origin.z, ray.origin.z), Fx { raw: (-FX_SCALE) as i64 }),
        );
        let d0 = sadd(smul(b, b), smul(sneg(a), c));
        let discriminant = if sabs(d0).raw < GEOM_EPS_RAW {
            Fx { raw: 0 }
        } else {
            d0
        };
        if discriminant.raw >= 0 {
            let inv_a = sdiv(Fx { raw: FX_SCALE }, a);
            let d_sqrt = ssqrt(discriminant);
            let t0 = smul(ssub(sneg(b), d_sqrt), inv_a);
            let t1 = smul(sadd(sneg(b), d_sqrt), inv_a);
            let tmin = if t0.raw < t1.raw {
                t0
            } else {
                t1
            };
            let tmax = if t0.raw < t1.raw {
                t1
            } else {
                t0
            };
            let ymin = sadd(smul(ray.direction.y, tmin), ray.origin.y);
            let ymax = sadd(smul(ray.direction.y, tmax), ray.origin.y);
            let s1 = if min.raw < ymin.raw && ymin.raw < max.raw {
                spec_push(s, tmin)
            } else {
                s
            };
            if min.raw < ymin.raw && ymin.raw < max.raw {
                lemma_push_keeps_order(s, tmin);
            }
            let s2 = if min.raw < ymax.raw && ymax.raw < max.raw {
                spec_push(s1, tmax)
            } else {
                s1
            };
            if min.raw < ymax.raw && ymax.raw < max.raw {
                lemma_push_keeps_order(s1, tmax);
            }
            lemma_caps_keep_order(ray, s2, min, max, closed);
        }
    } else {
        lemma_caps_keep_order(ray, s, min, max, closed);
    }
}

// Helper to reduce duplication in capped cylinder intersection.
fn check_cap(ray: Ray, t: Fx) -> (r: bool)
    ensures
        r == spec_check_cap(ray, t),
{
    let x = ray.direction.x.mul(t).add(ray.origin.x);
    let z = ray.direction.z.mul(t).add(ray.origin.z);

    x.mul(x).add(z.mul(z)).raw <= FX_SCALE + GEOM_EPS_RAW
}

// Helper which adds capped cylinder intersections.
fn intersect_caps(ray: Ray, xs: &mut Intersections, min: Fx, max: Fx, closed: bool)
    ensures
        *final(xs) == spec_intersect_caps(ray, *old(xs), min, max, closed),
{
    if !closed || ray.direction.y.abs().raw < GEOM_EPS_RAW {
        // Caps only matter if the cylinder is closed, and might possibly be
        // intersected by the ray.
        return ;
    }
    // Check for an intersection with the lower end cap by intersecting the
    // ray with the plane at y = min.
    let inv_y = Fx::one().div(ray.direction.y);
    let tmin = min.sub(ray.origin.y).mul(inv_y);
    if check_cap(ray, tmin) {
        xs.push(tmin);
    }
    // Check for an intersection with the upper end cap by intersecting the
    // ray with the plane y = max.
    let tmax = max.sub(ray.origin.y).mul(inv_y);
    if check_cap(ray, tmax) {
        xs.push(tmax);
    }
}

} // verus!
