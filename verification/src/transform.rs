//! Affine transforms: a local-to-world matrix paired with its inverse.
//!
//! Each builder step multiplies a fresh elementary matrix onto the
//! local-to-world side and recomputes the world-to-local side as the
//! inverse of the product.

use vstd::prelude::*;
use crate::fx::{Fx, fx_neg};
use crate::matrix::{Matrix4, identity4, spec_identity4, spec_mat4_mul, spec_inverse4, matrix4};
use crate::trig::{spec_sin, spec_cos};
use crate::tuple::{Tuple4, spec_normalize, spec_cross};

verus! {

/// An affine transform and its cached inverse.
#[derive(Copy, Clone, Debug, PartialEq, Eq, Structural)]
pub struct Transform {
    pub local_to_world: Matrix4,
    pub world_to_local: Matrix4,
}

/// The elementary translation matrix.
pub open spec fn spec_translation(x: Fx, y: Fx, z: Fx) -> Matrix4 {
    Matrix4 {
        x0: Fx { raw: crate::fx::FX_SCALE }, y0: Fx { raw: 0 }, z0: Fx { raw: 0 }, w0: Fx { raw: 0 },
        x1: Fx { raw: 0 }, y1: Fx { raw: crate::fx::FX_SCALE }, z1: Fx { raw: 0 }, w1: Fx { raw: 0 },
        x2: Fx { raw: 0 }, y2: Fx { raw: 0 }, z2: Fx { raw: crate::fx::FX_SCALE }, w2: Fx { raw: 0 },
        x3: x, y3: y, z3: z, w3: Fx { raw: crate::fx::FX_SCALE },
    }
}

/// The elementary scaling matrix.
pub open spec fn spec_scaling(x: Fx, y: Fx, z: Fx) -> Matrix4 {
    Matrix4 {
        x0: x, y0: Fx { raw: 0 }, z0: Fx { raw: 0 }, w0: Fx { raw: 0 },
        x1: Fx { raw: 0 }, y1: y, z1: Fx { raw: 0 }, w1: Fx { raw: 0 },
        x2: Fx { raw: 0 }, y2: Fx { raw: 0 }, z2: z, w2: Fx { raw: 0 },
        x3: Fx { raw: 0 }, y3: Fx { raw: 0 }, z3: Fx { raw: 0 }, w3: Fx { raw: crate::fx::FX_SCALE },
    }
}

/// The elementary rotation matrix around the x-axis.
pub open spec fn spec_rotation_x(radians: Fx) -> Matrix4 {
    let c = Fx { raw: spec_cos(radians.raw as int) as i64 };
    let s = Fx { raw: spec_sin(radians.raw as int) as i64 };
    let ns = Fx { raw: fx_neg(spec_sin(radians.raw as int)) as i64 };
    Matrix4 {
        x0: Fx { raw: crate::fx::FX_SCALE }, y0: Fx { raw: 0 }, z0: Fx { raw: 0 }, w0: Fx { raw: 0 },
        x1: Fx { raw: 0 }, y1: c, z1: s, w1: Fx { raw: 0 },
        x2: Fx { raw: 0 }, y2: ns, z2: c, w2: Fx { raw: 0 },
        x3: Fx { raw: 0 }, y3: Fx { raw: 0 }, z3: Fx { raw: 0 }, w3: Fx { raw: crate::fx::FX_SCALE },
    }
}

/// The elementary rotation matrix around the y-axis.
pub open spec fn spec_rotation_y(radians: Fx) -> Matrix4 {
    let c = Fx { raw: spec_cos(radians.raw as int) as i64 };
    let s = Fx { raw: spec_sin(radians.raw as int) as i64 };
    let ns = Fx { raw: fx_neg(spec_sin(radians.raw as int)) as i64 };
    Matrix4 {
        x0: c, y0: Fx { raw: 0 }, z0: ns, w0: Fx { raw: 0 },
        x1: Fx { raw: 0 }, y1: Fx { raw: crate::fx::FX_SCALE }, z1: Fx { raw: 0 }, w1: Fx { raw: 0 },
        x2: s, y2: Fx { raw: 0 }, z2: c, w2: Fx { raw: 0 },
        x3: Fx { raw: 0 }, y3: Fx { raw: 0 }, z3: Fx { raw: 0 }, w3: Fx { raw: crate::fx::FX_SCALE },
    }
}

/// The elementary rotation matrix around the z-axis.
pub open spec fn spec_rotation_z(radians: Fx) -> Matrix4 {
    let c = Fx { raw: spec_cos(radians.raw as int) as i64 };
    let s = Fx { raw: spec_sin(radians.raw as int) as i64 };
    let ns = Fx { raw: fx_neg(spec_sin(radians.raw as int)) as i64 };
    Matrix4 {
        x0: c, y0: s, z0: Fx { raw: 0 }, w0: Fx { raw: 0 },
        x1: ns, y1: c, z1: Fx { raw: 0 }, w1: Fx { raw: 0 },
        x2: Fx { raw: 0 }, y2: Fx { raw: 0 }, z2: Fx { raw: crate::fx::FX_SCALE }, w2: Fx { raw: 0 },
        x3: Fx { raw: 0 }, y3: Fx { raw: 0 }, z3: Fx { raw: 0 }, w3: Fx { raw: crate::fx::FX_SCALE },
    }
}

/// The elementary shear matrix.
pub open spec fn spec_shearing(xy: Fx, xz: Fx, yx: Fx, yz: Fx, zx: Fx, zy: Fx) -> Matrix4 {
    Matrix4 {
        x0: Fx { raw: crate::fx::FX_SCALE }, y0: yx, z0: zx, w0: Fx { raw: 0 },
        x1: xy, y1: Fx { raw: crate::fx::FX_SCALE }, z1: zy, w1: Fx { raw: 0 },
        x2: xz, y2: yz, z2: Fx { raw: crate::fx::FX_SCALE }, w2: Fx { raw: 0 },
        x3: Fx { raw: 0 }, y3: Fx { raw: 0 }, z3: Fx { raw: 0 }, w3: Fx { raw: crate::fx::FX_SCALE },
    }
}

/// The view matrix of `look_at`: the orientation built from the forward,
/// left and true-up directions, times the translation that moves the eye
/// to the origin.
pub open spec fn spec_look_at(from: Tuple4, to: Tuple4, up: Tuple4) -> Matrix4 {
    let forward = spec_normalize(Tuple4 {
        x: Fx { raw: crate::fx::fx_sub(to.x.raw as int, from.x.raw as int) as i64 },
        y: Fx { raw: crate::fx::fx_sub(to.y.raw as int, from.y.raw as int) as i64 },
        z: Fx { raw: crate::fx::fx_sub(to.z.raw as int, from.z.raw as int) as i64 },
        w: Fx { raw: crate::fx::fx_sub(to.w.raw as int, from.w.raw as int) as i64 },
    });
    let left = spec_cross(forward, spec_normalize(up));
    let true_up = spec_cross(left, forward);
    let orientation = Matrix4 {
        x0: left.x, y0: true_up.x, z0: Fx { raw: fx_neg(forward.x.raw as int) as i64 }, w0: Fx { raw: 0 },
        x1: left.y, y1: true_up.y, z1: Fx { raw: fx_neg(forward.y.raw as int) as i64 }, w1: Fx { raw: 0 },
        x2: left.z, y2: true_up.z, z2: Fx { raw: fx_neg(forward.z.raw as int) as i64 }, w2: Fx { raw: 0 },
        x3: Fx { raw: 0 }, y3: Fx { raw: 0 }, z3: Fx { raw: 0 }, w3: Fx { raw: crate::fx::FX_SCALE },
    };
    spec_mat4_mul(
        orientation,
        spec_translation(
            Fx { raw: fx_neg(from.x.raw as int) as i64 },
            Fx { raw: fx_neg(from.y.raw as int) as i64 },
            Fx { raw: fx_neg(from.z.raw as int) as i64 },
        ),
    )
}

impl Transform {
    /// Creates an identity transform.
    pub fn new() -> (r: Transform)
        ensures
            r.local_to_world == spec_identity4(),
            r.world_to_local == spec_identity4(),
    {
        Transform { local_to_world: identity4(), world_to_local: identity4() }
    }

    /// Creates a view transform given the point where the eye is looking
    /// from, the point where the eye is looking to, and a vector indicating
    /// which direction is up.
    pub fn look_at(from: Tuple4, to: Tuple4, up: Tuple4) -> (r: Transform)
        ensures
            r.local_to_world == spec_look_at(from, to, up),
            r.world_to_local == spec_inverse4(spec_look_at(from, to, up)),
    {
        let forward = to.sub(from).normalize();
        let left = forward.cross(up.normalize());
        let true_up = left.cross(forward);
        let orientation = matrix4(
            left.x, left.y, left.z, Fx::zero(),
            true_up.x, true_up.y, true_up.z, Fx::zero(),
            forward.x.neg(), forward.y.neg(), forward.z.neg(), Fx::zero(),
            Fx::zero(), Fx::zero(), Fx::zero(), Fx::one(),
        );

        let view_matrix = orientation.mul(
            matrix4(
                Fx::one(), Fx::zero(), Fx::zero(), from.x.neg(),
                Fx::zero(), Fx::one(), Fx::zero(), from.y.neg(),
                Fx::zero(), Fx::zero(), Fx::one(), from.z.neg(),
                Fx::zero(), Fx::zero(), Fx::zero(), Fx::one(),
            ),
        );

        Transform { local_to_world: view_matrix, world_to_local: view_matrix.inverse() }
    }

    /// Translates by the specified amount in each axis.
    pub fn translate(&mut self, x: Fx, y: Fx, z: Fx) -> (r: Transform)
        ensures
            final(self).local_to_world == spec_mat4_mul(
                old(self).local_to_world,
                spec_translation(x, y, z),
            ),
            final(self).world_to_local == spec_inverse4(final(self).local_to_world),
            r == *final(self),
    {
        let translate_matrix = matrix4(
            Fx::one(), Fx::zero(), Fx::zero(), x,
            Fx::zero(), Fx::one(), Fx::zero(), y,
            Fx::zero(), Fx::zero(), Fx::one(), z,
            Fx::zero(), Fx::zero(), Fx::zero(), Fx::one(),
        );
        self.local_to_world = self.local_to_world.mul(translate_matrix);
        self.world_to_local = self.local_to_world.inverse();
        *self
    }

    /// Rotates around the x-axis by the angle in radians.
    pub fn rotate_x(&mut self, radians: Fx) -> (r: Transform)
        ensures
            final(self).local_to_world == spec_mat4_mul(
                old(self).local_to_world,
                spec_rotation_x(radians),
            ),
            final(self).world_to_local == spec_inverse4(final(self).local_to_world),
            r == *final(self),
    {
        let c = radians.cos();
        let s = radians.sin();
        let rotation_matrix = matrix4(
            Fx::one(), Fx::zero(), Fx::zero(), Fx::zero(),
            Fx::zero(), c, s.neg(), Fx::zero(),
            Fx::zero(), s, c, Fx::zero(),
            Fx::zero(), Fx::zero(), Fx::zero(), Fx::one(),
        );
        self.local_to_world = self.local_to_world.mul(rotation_matrix);
        self.world_to_local = self.local_to_world.inverse();
        *self
    }

    /// Rotates around the y-axis by the angle in radians.
    pub fn rotate_y(&mut self, radians: Fx) -> (r: Transform)
        ensures
            final(self).local_to_world == spec_mat4_mul(
                old(self).local_to_world,
                spec_rotation_y(radians),
            ),
            final(self).world_to_local == spec_inverse4(final(self).local_to_world),
            r == *final(self),
    {
        let c = radians.cos();
        let s = radians.sin();
        let rotation_matrix = matrix4(
            c, Fx::zero(), s, Fx::zero(),
            Fx::zero(), Fx::one(), Fx::zero(), Fx::zero(),
            s.neg(), Fx::zero(), c, Fx::zero(),
            Fx::zero(), Fx::zero(), Fx::zero(), Fx::one(),
        );
        self.local_to_world = self.local_to_world.mul(rotation_matrix);
        self.world_to_local = self.local_to_world.inverse();
        *self
    }

    /// Rotates around the z-axis by the angle in radians.
    pub fn rotate_z(&mut self, radians: Fx) -> (r: Transform)
        ensures
            final(self).local_to_world == spec_mat4_mul(
                old(self).local_to_world,
                spec_rotation_z(radians),
            ),
            final(self).world_to_local == spec_inverse4(final(self).local_to_world),
            r == *final(self),
    {
        let c = radians.cos();
        let s = radians.sin();
        let rotation_matrix = matrix4(
            c, s.neg(), Fx::zero(), Fx::zero(),
            s, c, Fx::zero(), Fx::zero(),
            Fx::zero(), Fx::zero(), Fx::one(), Fx::zero(),
            Fx::zero(), Fx::zero(), Fx::zero(), Fx::one(),
        );
        self.local_to_world = self.local_to_world.mul(rotation_matrix);
        self.world_to_local = self.local_to_world.inverse();
        *self
    }

    /// Scales by the specified amount in each axis.
    pub fn scale(&mut self, x: Fx, y: Fx, z: Fx) -> (r: Transform)
        ensures
            final(self).local_to_world == spec_mat4_mul(
                old(self).local_to_world,
                spec_scaling(x, y, z),
            ),
            final(self).world_to_local == spec_inverse4(final(self).local_to_world),
            r == *final(self),
    {
        let scale_matrix = matrix4(
            x, Fx::zero(), Fx::zero(), Fx::zero(),
            Fx::zero(), y, Fx::zero(), Fx::zero(),
            Fx::zero(), Fx::zero(), z, Fx::zero(),
            Fx::zero(), Fx::zero(), Fx::zero(), Fx::one(),
        );
        self.local_to_world = self.local_to_world.mul(scale_matrix);
        self.world_to_local = self.local_to_world.inverse();
        *self
    }

    /// Applies the shear transformation.
    pub fn shear(&mut self, xy: Fx, xz: Fx, yx: Fx, yz: Fx, zx: Fx, zy: Fx) -> (r: Transform)
        ensures
            final(self).local_to_world == spec_mat4_mul(
                old(self).local_to_world,
                spec_shearing(xy, xz, yx, yz, zx, zy),
            ),
            final(self).world_to_local == spec_inverse4(final(self).local_to_world),
            r == *final(self),
    {
        let shear_matrix = matrix4(
            Fx::one(), xy, xz, Fx::zero(),
            yx, Fx::one(), yz, Fx::zero(),
            zx, zy, Fx::one(), Fx::zero(),
            Fx::zero(), Fx::zero(), Fx::zero(), Fx::one(),
        );
        self.local_to_world = self.local_to_world.mul(shear_matrix);
        self.world_to_local = self.local_to_world.inverse();
        *self
    }
}

} // verus!
