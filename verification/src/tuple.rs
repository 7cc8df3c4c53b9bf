//! Four-component tuples: points (`w == 1`) and vectors (`w == 0`) in
//! homogeneous coordinates.

use vstd::prelude::*;
use crate::fx::{Fx, FX_SCALE, fx_add, fx_sub, fx_neg, fx_mul, fx_div, fx_sqrt};

verus! {

/// A 4-element tuple, used for representing points and vectors.
#[derive(Copy, Clone, Debug, PartialEq, Eq, Structural)]
pub struct Tuple4 {
    pub x: Fx,
    pub y: Fx,
    pub z: Fx,
    pub w: Fx,
}

/// The raw dot product of the spatial components, in the order the
/// additions are performed.
pub open spec fn spec_dot(a: Tuple4, b: Tuple4) -> int {
    fx_add(
        fx_mul(a.x.raw as int, b.x.raw as int),
        fx_add(fx_mul(a.y.raw as int, b.y.raw as int), fx_mul(a.z.raw as int, b.z.raw as int)),
    )
}

/// The raw squared magnitude over all four components.
pub open spec fn spec_mag_sq(a: Tuple4) -> int {
    fx_add(
        fx_mul(a.x.raw as int, a.x.raw as int),
        fx_add(
            fx_mul(a.y.raw as int, a.y.raw as int),
            fx_add(fx_mul(a.z.raw as int, a.z.raw as int), fx_mul(a.w.raw as int, a.w.raw as int)),
        ),
    )
}

/// The raw magnitude: the square root of the squared magnitude.
pub open spec fn spec_magnitude(a: Tuple4) -> int {
    fx_sqrt(spec_mag_sq(a))
}

/// The component-wise sum as a tuple value.
pub open spec fn stadd(a: Tuple4, b: Tuple4) -> Tuple4 {
    Tuple4 {
        x: Fx { raw: fx_add(a.x.raw as int, b.x.raw as int) as i64 },
        y: Fx { raw: fx_add(a.y.raw as int, b.y.raw as int) as i64 },
        z: Fx { raw: fx_add(a.z.raw as int, b.z.raw as int) as i64 },
        w: Fx { raw: fx_add(a.w.raw as int, b.w.raw as int) as i64 },
    }
}

/// The component-wise difference as a tuple value.
pub open spec fn stsub(a: Tuple4, b: Tuple4) -> Tuple4 {
    Tuple4 {
        x: Fx { raw: fx_sub(a.x.raw as int, b.x.raw as int) as i64 },
        y: Fx { raw: fx_sub(a.y.raw as int, b.y.raw as int) as i64 },
        z: Fx { raw: fx_sub(a.z.raw as int, b.z.raw as int) as i64 },
        w: Fx { raw: fx_sub(a.w.raw as int, b.w.raw as int) as i64 },
    }
}

/// The component-wise negation as a tuple value.
pub open spec fn stneg(a: Tuple4) -> Tuple4 {
    Tuple4 {
        x: Fx { raw: fx_neg(a.x.raw as int) as i64 },
        y: Fx { raw: fx_neg(a.y.raw as int) as i64 },
        z: Fx { raw: fx_neg(a.z.raw as int) as i64 },
        w: Fx { raw: fx_neg(a.w.raw as int) as i64 },
    }
}

/// The component-wise scaling as a tuple value.
pub open spec fn stscale(a: Tuple4, s: Fx) -> Tuple4 {
    Tuple4 {
        x: Fx { raw: fx_mul(a.x.raw as int, s.raw as int) as i64 },
        y: Fx { raw: fx_mul(a.y.raw as int, s.raw as int) as i64 },
        z: Fx { raw: fx_mul(a.z.raw as int, s.raw as int) as i64 },
        w: Fx { raw: fx_mul(a.w.raw as int, s.raw as int) as i64 },
    }
}

/// The dot product as a scalar value.
pub open spec fn sdot(a: Tuple4, b: Tuple4) -> Fx {
    Fx { raw: spec_dot(a, b) as i64 }
}

/// A vector (w = 0) from three scalar components.
pub open spec fn svec(x: Fx, y: Fx, z: Fx) -> Tuple4 {
    Tuple4 { x, y, z, w: Fx { raw: 0 } }
}

/// The normalized form of a tuple: each component divided by the
/// magnitude, or the tuple itself when the magnitude is zero.
pub open spec fn spec_normalize(a: Tuple4) -> Tuple4 {
    let m = spec_magnitude(a);
    if m == 0 {
        a
    } else {
        Tuple4 {
            x: Fx { raw: fx_div(a.x.raw as int, m) as i64 },
            y: Fx { raw: fx_div(a.y.raw as int, m) as i64 },
            z: Fx { raw: fx_div(a.z.raw as int, m) as i64 },
            w: Fx { raw: fx_div(a.w.raw as int, m) as i64 },
        }
    }
}

/// The cross product of the spatial components, with `w == 0`.
pub open spec fn spec_cross(a: Tuple4, b: Tuple4) -> Tuple4 {
    Tuple4 {
        x: Fx {
            raw: fx_add(
                fx_mul(a.y.raw as int, b.z.raw as int),
                fx_mul(fx_neg(a.z.raw as int), b.y.raw as int),
            ) as i64,
        },
        y: Fx {
            raw: fx_add(
                fx_mul(a.z.raw as int, b.x.raw as int),
                fx_mul(fx_neg(a.x.raw as int), b.z.raw as int),
            ) as i64,
        },
        z: Fx {
            raw: fx_add(
                fx_mul(a.x.raw as int, b.y.raw as int),
                fx_mul(fx_neg(a.y.raw as int), b.x.raw as int),
            ) as i64,
        },
        w: Fx { raw: 0 },
    }
}

/// Constructs a Tuple4.
pub fn tuple4(x: Fx, y: Fx, z: Fx, w: Fx) -> (r: Tuple4)
    ensures
        r == (Tuple4 { x, y, z, w }),
{
    Tuple4 { x, y, z, w }
}

/// Constructs a Tuple4 with w = 1 (aka a point).
pub fn point3(x: Fx, y: Fx, z: Fx) -> (r: Tuple4)
    ensures
        r.x == x && r.y == y && r.z == z,
        r.w.raw == FX_SCALE,
{
    Tuple4 { x, y, z, w: Fx::one() }
}

/// Constructs a Tuple4 with w = 0 (aka a vector).
pub fn vector3(x: Fx, y: Fx, z: Fx) -> (r: Tuple4)
    ensures
        r.x == x && r.y == y && r.z == z,
        r.w.raw == 0,
{
    Tuple4 { x, y, z, w: Fx::zero() }
}

impl Tuple4 {
    /// Whether the Tuple4 is a point (w = 1).
    pub fn is_point(&self) -> (r: bool)
        ensures
            r == (self.w.raw == FX_SCALE),
    {
        self.w.raw == FX_SCALE
    }

    /// Whether the Tuple4 is a vector (w = 0).
    pub fn is_vector(&self) -> (r: bool)
        ensures
            r == (self.w.raw == 0),
    {
        self.w.raw == 0
    }

    /// Component-wise sum.
    pub fn add(self, other: Tuple4) -> (r: Tuple4)
        ensures
            r == stadd(self, other),
            r.x.raw == fx_add(self.x.raw as int, other.x.raw as int),
            r.y.raw == fx_add(self.y.raw as int, other.y.raw as int),
            r.z.raw == fx_add(self.z.raw as int, other.z.raw as int),
            r.w.raw == fx_add(self.w.raw as int, other.w.raw as int),
    {
        Tuple4 {
            x: self.x.add(other.x),
            y: self.y.add(other.y),
            z: self.z.add(other.z),
            w: self.w.add(other.w),
        }
    }

    /// Component-wise difference.
    pub fn sub(self, other: Tuple4) -> (r: Tuple4)
        ensures
            r == stsub(self, other),
            r.x.raw == fx_sub(self.x.raw as int, other.x.raw as int),
            r.y.raw == fx_sub(self.y.raw as int, other.y.raw as int),
            r.z.raw == fx_sub(self.z.raw as int, other.z.raw as int),
            r.w.raw == fx_sub(self.w.raw as int, other.w.raw as int),
    {
        Tuple4 {
            x: self.x.sub(other.x),
            y: self.y.sub(other.y),
            z: self.z.sub(other.z),
            w: self.w.sub(other.w),
        }
    }

    /// Component-wise negation.
    pub fn neg(self) -> (r: Tuple4)
        ensures
            r == stneg(self),
            r.x.raw == fx_neg(self.x.raw as int),
            r.y.raw == fx_neg(self.y.raw as int),
            r.z.raw == fx_neg(self.z.raw as int),
            r.w.raw == fx_neg(self.w.raw as int),
    {
        Tuple4 { x: self.x.neg(), y: self.y.neg(), z: self.z.neg(), w: self.w.neg() }
    }

    /// Component-wise scaling by a scalar.
    pub fn scale(self, other: Fx) -> (r: Tuple4)
        ensures
            r == stscale(self, other),
            r.x.raw == fx_mul(self.x.raw as int, other.raw as int),
            r.y.raw == fx_mul(self.y.raw as int, other.raw as int),
            r.z.raw == fx_mul(self.z.raw as int, other.raw as int),
            r.w.raw == fx_mul(self.w.raw as int, other.raw as int),
    {
        Tuple4 {
            x: self.x.mul(other),
            y: self.y.mul(other),
            z: self.z.mul(other),
            w: self.w.mul(other),
        }
    }

    /// Component-wise division by a scalar.
    pub fn div_scalar(self, other: Fx) -> (r: Tuple4)
        ensures
            r.x.raw == fx_div(self.x.raw as int, other.raw as int),
            r.y.raw == fx_div(self.y.raw as int, other.raw as int),
            r.z.raw == fx_div(self.z.raw as int, other.raw as int),
            r.w.raw == fx_div(self.w.raw as int, other.raw as int),
    {
        Tuple4 {
            x: self.x.div(other),
            y: self.y.div(other),
            z: self.z.div(other),
            w: self.w.div(other),
        }
    }

    /// The distance represented by the tuple.
    pub fn magnitude(&self) -> (r: Fx)
        ensures
            r.raw == spec_magnitude(*self),
            r.raw >= 0,
    {
        let s = self.x.mul(self.x).add(
            self.y.mul(self.y).add(self.z.mul(self.z).add(self.w.mul(self.w))),
        );
        s.sqrt()
    }

    /// Returns a normalized (magnitude = 1) form of the tuple, or the tuple
    /// itself when its magnitude is zero.
    pub fn normalize(&self) -> (r: Tuple4)
        ensures
            r == spec_normalize(*self),
            spec_magnitude(*self) == 0 ==> r == *self,
            spec_magnitude(*self) != 0 ==> {
                let m = spec_magnitude(*self);
                &&& r.x.raw == fx_div(self.x.raw as int, m)
                &&& r.y.raw == fx_div(self.y.raw as int, m)
                &&& r.z.raw == fx_div(self.z.raw as int, m)
                &&& r.w.raw == fx_div(self.w.raw as int, m)
            },
    {
        let m = self.magnitude();
        if m.raw == 0 {
            *self
        } else {
            Tuple4 { x: self.x.div(m), y: self.y.div(m), z: self.z.div(m), w: self.w.div(m) }
        }
    }

    /// Returns the dot product (aka scalar product) with another vector.
    ///
    /// If the two vectors are unit vectors, the dot product is the cosine of
    /// the angle between them.
    pub fn dot(&self, other: Tuple4) -> (r: Fx)
        ensures
            r.raw == spec_dot(*self, other),
    {
        self.x.mul(other.x).add(self.y.mul(other.y).add(self.z.mul(other.z)))
    }

    /// Returns the cross product (aka vector product) with another vector:
    /// a new vector perpendicular to both of the original vectors.
    pub fn cross(&self, other: Tuple4) -> (r: Tuple4)
        ensures
            r == spec_cross(*self, other),
            r.x.raw == fx_add(
                fx_mul(self.y.raw as int, other.z.raw as int),
                fx_mul(fx_neg(self.z.raw as int), other.y.raw as int),
            ),
            r.y.raw == fx_add(
                fx_mul(self.z.raw as int, other.x.raw as int),
                fx_mul(fx_neg(self.x.raw as int), other.z.raw as int),
            ),
            r.z.raw == fx_add(
                fx_mul(self.x.raw as int, other.y.raw as int),
                fx_mul(fx_neg(self.y.raw as int), other.x.raw as int),
            ),
            r.w.raw == 0,
    {
        Tuple4 {
            x: self.y.mul(other.z).add(self.z.neg().mul(other.y)),
            y: self.z.mul(other.x).add(self.x.neg().mul(other.z)),
            z: self.x.mul(other.y).add(self.y.neg().mul(other.x)),
            w: Fx::zero(),
        }
    }

    /// Returns a new vector representing this vector reflected around the
    /// normal.
    pub fn reflect(&self, normal: Tuple4) -> (r: Tuple4)
        ensures
            r == spec_reflect(*self, normal),
    {
        let d = self.dot(normal);
        self.sub(normal.scale(Fx { raw: (2 * FX_SCALE) as i64 }).scale(d))
    }
}

/// The reflection of `v` around `normal`: `v - normal * 2 * (v . normal)`.
pub open spec fn spec_reflect(v: Tuple4, normal: Tuple4) -> Tuple4 {
    let d = spec_dot(v, normal);
    let sx = fx_mul(fx_mul(normal.x.raw as int, 2 * FX_SCALE as int), d);
    let sy = fx_mul(fx_mul(normal.y.raw as int, 2 * FX_SCALE as int), d);
    let sz = fx_mul(fx_mul(normal.z.raw as int, 2 * FX_SCALE as int), d);
    let sw = fx_mul(fx_mul(normal.w.raw as int, 2 * FX_SCALE as int), d);
    Tuple4 {
        x: Fx { raw: fx_sub(v.x.raw as int, sx) as i64 },
        y: Fx { raw: fx_sub(v.y.raw as int, sy) as i64 },
        z: Fx { raw: fx_sub(v.z.raw as int, sz) as i64 },
        w: Fx { raw: fx_sub(v.w.raw as int, sw) as i64 },
    }
}

} // verus!
