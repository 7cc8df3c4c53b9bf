//! The double cone with its apex at the local origin and a 45-degree
//! half-angle, optionally bounded and capped.

use vstd::prelude::*;
use crate::fx::{Fx, FX_SCALE, sadd, ssub, sneg, smul, sdiv, sabs, ssqrt};
use crate::geometry::GEOM_EPS_RAW;
use crate::intersections::{
    Intersections, lemma_push_keeps_order, spec_intersections_new, spec_ordered, spec_push,
};
use crate::ray::Ray;
use crate::tuple::{Tuple4, svec, vector3};

verus! {

/// Whether the ray at distance `t` lies within the given cap radius of the
/// y-axis, with a small tolerance. The cone's cap radius grows with the
/// magnitude of the bound.
pub open spec fn spec_check_cap_radius(ray: Ray, t: Fx, radius: Fx) -> bool {
    let x = sadd(smul(ray.direction.x, t), ray.origin.x);
    let z = sadd(smul(ray.direction.z, t), ray.origin.z);
    sadd(smul(x, x), smul(z, z)).raw <= sadd(radius, Fx { raw: GEOM_EPS_RAW }).raw
}

/// The cap hits added for a closed cone, each cap with its own radius.
pub open spec fn spec_cone_intersect_caps(ray: Ray, s: Intersections, min: Fx, max: Fx, closed: bool)
    -> Intersections {
    if !closed || sabs(ray.direction.y).raw < GEOM_EPS_RAW {
        s
    } else {
        let inv_y = sdiv(Fx { raw: FX_SCALE }, ray.direction.y);
        let tmin = smul(ssub(min, ray.origin.y), inv_y);
        let s1 = if spec_check_cap_radius(ray, tmin, sabs(min)) {
            spec_push(s, tmin)
        } else {
            s
        };
        let tmax = smul(ssub(max, ray.origin.y), inv_y);
        if spec_check_cap_radius(ray, tmax, sabs(max)) {
            spec_push(s1, tmax)
        } else {
            s1
        }
    }
}

/// The body hits of the cone: the quadratic in all three direction
/// components, degenerating to a single linear root where its leading
/// coefficient vanishes; roots are kept where their height lies strictly
/// between the bounds, and the caps follow.
pub open spec fn spec_cone_intersect(ray: Ray, min: Fx, max: Fx, closed: bool) -> Intersections {
    let s = spec_intersections_new();
    let a = sadd(
        smul(ray.direction.x, ray.direction.x),
        sadd(
            smul(ray.direction.z, ray.direction.z),
            smul(sneg(ray.direction.y), ray.direction.y),
        ),
    );
    let b = sadd(
        smul(ray.origin.x, ray.direction.x),
        sadd(smul(ray.origin.z, ray.direction.z), smul(sneg(ray.origin.y), ray.direction.y)),
    );
    let c = sadd(
        smul(ray.origin.x, ray.origin.x),
        sadd(smul(ray.origin.z, ray.origin.z), smul(sneg(ray.origin.y), ray.origin.y)),
    );
    if sabs(a).raw < GEOM_EPS_RAW {
        if sabs(b).raw < GEOM_EPS_RAW {
            s
        } else {
            let t = sdiv(sneg(c), smul(Fx { raw: (4 * FX_SCALE) as i64 }, b));
            spec_cone_intersect_caps(ray, spec_push(s, t), min, max, closed)
        }
    } else {
        let d0 = sadd(smul(b, b), smul(sneg(a), c));
        let discriminant = if sabs(d0).raw < GEOM_EPS_RAW {
            Fx { raw: 0 }
        } else {
            d0
        };
        if discriminant.raw < 0 {
            s
        } else {
            let inv_a = sdiv(Fx { raw: FX_SCALE }, a);
            let d_sqrt = ssqrt(discriminant);
            let t0 = smul(ssub(sneg(b), d_sqrt), inv_a);
            let t1 = smul(sadd(sneg(b), d_sqrt), inv_a);
            let tmin = if t0.raw < t1.raw {
                t0
            } else {
                t1
            };
            let tmax = if t0.raw < t1.raw {
                t1
            } else {
                t0
            };
            let ymin = sadd(smul(ray.direction.y, tmin), ray.origin.y);
            let ymax = sadd(smul(ray.direction.y, tmax), ray.origin.y);
            let s1 = if min.raw < ymin.raw && ymin.raw < max.raw {
                spec_push(s, tmin)
            } else {
                s
            };
            let s2 = if min.raw < ymax.raw && ymax.raw < max.raw {
                spec_push(s1, tmax)
            } else {
                s1
            };
            spec_cone_intersect_caps(ray, s2, min, max, closed)
        }
    }
}

/// The normal: straight up or down near a cap, else radial with a vertical
/// part whose magnitude is the distance from the axis, pointing away from
/// the apex.
pub open spec fn spec_cone_normal_at(point: Tuple4, min: Fx, max: Fx) -> Tuple4 {
    let d2 = sadd(smul(point.x, point.x), smul(point.z, point.z));
    if d2.raw < sabs(max).raw && point.y.raw >= ssub(max, Fx { raw: GEOM_EPS_RAW }).raw {
        svec(Fx { raw: 0 }, Fx { raw: FX_SCALE }, Fx { raw: 0 })
    } else if d2.raw < sabs(min).raw && point.y.raw <= sadd(min, Fx { raw: GEOM_EPS_RAW }).raw {
        svec(Fx { raw: 0 }, Fx { raw: (-FX_SCALE) as i64 }, Fx { raw: 0 })
    } else {
        let yn = ssqrt(sadd(smul(point.x, point.x), smul(point.z, point.z)));
        let y = if point.y.raw > 0 {
            sneg(yn)
        } else {
            yn
        };
        svec(point.x, y, point.z)
    }
}

/// Intersects a local-space ray with the cone.
pub fn intersect(ray: Ray, min: Fx, max: Fx, closed: bool) -> (r: Intersections)
    ensures
        r == spec_cone_intersect(ray, min, max, closed),
{
    let mut result = Intersections::new();

    let a = ray.direction.x.mul(ray.direction.x).add(
        ray.direction.z.mul(ray.direction.z).add(ray.direction.y.neg().mul(ray.direction.y)),
    );
    let b = ray.origin.x.mul(ray.direction.x).add(
        ray.origin.z.mul(ray.direction.z).add(ray.origin.y.neg().mul(ray.direction.y)),
    );
    let c = ray.origin.x.mul(ray.origin.x).add(
        ray.origin.z.mul(ray.origin.z).add(ray.origin.y.neg().mul(ray.origin.y)),
    );

    if a.abs().raw < GEOM_EPS_RAW {
        if b.abs().raw < GEOM_EPS_RAW {
            return result;
        }

        let t = c.neg().div(Fx::from_int(4).mul(b));
        result.push(t);
    } else {
        let mut discriminant = b.mul(b).add(a.neg().mul(c));

        if discriminant.abs().raw < GEOM_EPS_RAW {
            discriminant = Fx::zero();
        }

        if discriminant.raw < 0 {
            // Ray does not intersect the cone.
            return result;
        }

        let inv_a = Fx::one().div(a);
        let d_sqrt = discriminant.sqrt();
        let ta = b.neg().sub(d_sqrt).mul(inv_a);
        let tb = b.neg().add(d_sqrt).mul(inv_a);
        let (tmin, tmax) = if ta.raw < tb.raw {
            (ta, tb)
        } else {
            (tb, ta)
        };

        let ymin = ray.direction.y.mul(tmin).add(ray.origin.y);
        let ymax = ray.direction.y.mul(tmax).add(ray.origin.y);

        if min.raw < ymin.raw && ymin.raw < max.raw {
            result.push(tmin);
        }

        if min.raw < ymax.raw && ymax.raw < max.raw {
            result.push(tmax);
        }
    }

    intersect_caps(ray, &mut result, min, max, closed);

    result
}

/// The surface normal at a local-space point.
pub fn normal_at(point: Tuple4, min: Fx, max: Fx, _closed: bool) -> (r: Tuple4)
    ensures
        r == spec_cone_normal_at(point, min, max),
{
    // The square of the distance from the y axis.
    let d2 = point.x.mul(point.x).add(point.z.mul(point.z));

    if d2.raw < max.abs().raw && point.y.raw >= max.sub(Fx { raw: GEOM_EPS_RAW }).raw {
        // Hitting the top cap.
        vector3(Fx::zero(), Fx::one(), Fx::zero())
    } else if d2.raw < min.abs().raw && point.y.raw <= min.add(Fx { raw: GEOM_EPS_RAW }).raw {
        // Hitting the bottom cap.
        vector3(Fx::zero(), Fx::one().neg(), Fx::zero())
    } else {
        let yn = point.x.mul(point.x).add(point.z.mul(point.z)).sqrt();
        let y = if point.y.raw > 0 {
            yn.neg()
        } else {
            yn
        };
        vector3(point.x, y, point.z)
    }
}

/// The cap hits keep the slots in ascending parametric order.
pub proof fn lemma_cone_caps_keep_order(ray: Ray, s: Intersections, min: Fx, max: Fx, closed: bool)
    requires
        spec_ordered(s),
    ensures
        spec_ordered(spec_cone_intersect_caps(ray, s, min, max, closed)),
{
    if closed && sabs(ray.direction.y).raw >= GEOM_EPS_RAW {
        let inv_y = sdiv(Fx { raw: FX_SCALE }, ray.direction.y);
        let tmin = smul(ssub(min, ray.origin.y), inv_y);
        let s1 = if spec_check_cap_radius(ray, tmin, sabs(min)) {
            spec_push(s, tmin)
        } else {
            s
        };
        if spec_check_cap_radius(ray, tmin, sabs(min)) {
            lemma_push_keeps_order(s, tmin);
        }
        let tmax = smul(ssub(max, ray.origin.y), inv_y);
        if spec_check_cap_radius(ray, tmax, sabs(max)) {
            lemma_push_keeps_order(s1, tmax);
        }
    }
}

/// The cone's hits come out in ascending parametric order.
pub proof fn lemma_cone_intersect_ordered(ray: Ray, min: Fx, max: Fx, closed: bool)
    ensures
        spec_ordered(spec_cone_intersect(ray, min, max, closed)),
{
    let s = spec_intersections_new();
    let a = sadd(
        smul(ray.direction.x, ray.direction.x),
        sadd(
            smul(ray.direction.z, ray.direction.z),
            smul(sneg(ray.direction.y), ray.direction.y),
        ),
    );
    let b = sadd(
        smul(ray.origin.x, ray.direction.x),
        sadd(smul(ray.origin.z, ray.direction.z), smul(sneg(ray.origin.y), ray.direction.y)),
    );
    let c = sadd(
        smul(ray.origin.x, ray.origin.x),
        sadd(smul(ray.origin.z, ray.origin.z), smul(sneg(ray.origin.y), ray.origin.y)),
    );
    if sabs(a).raw < GEOM_EPS_RAW {
        if sabs(b).raw >= GEOM_EPS_RAW {
            let t = sdiv(sneg(c), smul(Fx { raw: (4 * FX_SCALE) as i64 }, b));
            lemma_push_keeps_order(s, t);
            lemma_cone_caps_keep_order(ray, spec_push(s, t), min, max, closed);
        }
    } else {
        let d0 = sadd(smul(b, b), smul(sneg(a), c));
        let discriminant = if sabs(d0).raw < GEOM_EPS_RAW {
            Fx { raw: 0 }
        } else {
            d0
        };
        if discriminant.raw >= 0 {
            let inv_a = sdiv(Fx { raw: FX_SCALE }, a);
            let d_sqrt = ssqrt(discriminant);
            let t0 = smul(ssub(sneg(b), d_sqrt), inv_a);
            let t1 = smul(sadd(sneg(b), d_sqrt), inv_a);
            let tmin = if t0.raw < t1.raw {
                t0
            } else {
                t1
            };
            let tmax = if t0.raw < t1.raw {
                t1
            } else {
                t0
            };
            let ymin = sadd(smul(ray.direction.y, tmin), ray.origin.y);
            let ymax = sadd(smul(ray.direction.y, tmax), ray.origin.y);
            let s1 = if min.raw < ymin.raw && ymin.raw < max.raw {
                spec_push(s, tmin)
            } else {
                s
            };
            if min.raw < ymin.raw && ymin.raw < max.raw {
                lemma_push_keeps_order(s, tmin);
            }
            let s2 = if min.raw < ymax.raw && ymax.raw < max.raw {
                spec_push(s1, tmax)
            } else {
                s1
            };
            if min.raw < ymax.raw && ymax.raw < max.raw {
                lemma_push_keeps_order(s1, tmax);
            }
            lemma_cone_caps_keep_order(ray, s2, min, max, closed);
        }
    }
}

// Checks if the point along the ray at position t intersects the cap with
// the given radius.
fn check_cap(ray: Ray, t: Fx, radius: Fx) -> (r: bool)
    ensures
        r == spec_check_cap_radius(ray, t, radius),
{
    let x = ray.direction.x.mul(t).add(ray.origin.x);
    let z = ray.direction.z.mul(t).add(ray.origin.z);

    x.mul(x).add(z.mul(z)).raw <= radius.add(Fx { raw: GEOM_EPS_RAW }).raw
}

// Helper which adds capped cone intersections.
fn intersect_caps(ray: Ray, xs: &mut Intersections, min: Fx, max: Fx, closed: bool)
    ensures
        *final(xs) == spec_cone_intersect_caps(ray, *old(xs), min, max, closed),
{
    if !closed || ray.direction.y.abs().raw < GEOM_EPS_RAW {
        // Caps only matter if the cone is closed, and might possibly be
        // intersected by the ray.
        return ;
    }
    // Check for an intersection with the lower end cap by intersecting the
    // ray with the plane at y = min.
    let inv_y = Fx::one().div(ray.direction.y);
    let tmin = min.sub(ray.origin.y).mul(inv_y);
    if check_cap(ray, tmin, min.abs()) {
        xs.push(tmin);
    }
    // Check for an intersection with the upper end cap by intersecting the
    // ray with the plane y = max.
    let tmax = max.sub(ray.origin.y).mul(inv_y);
    if check_cap(ray, tmax, max.abs()) {
        xs.push(tmax);
    }
}

} // verus!
