//! Procedural textures: a pattern kind and the transform from object space
//! into texture space.

use vstd::prelude::*;
use crate::color::{Color, scscale};
use crate::fx::{Fx, FX_SCALE};
use crate::matrix::{spec_identity4, spec_mat4_mul_tuple};
use crate::transform::Transform;
use crate::tuple::Tuple4;

pub mod checkerboard_2d;
pub mod checkerboard_3d;
pub mod linear_gradient;
pub mod radial_gradient;
pub mod ring;
pub mod stripe;
pub mod white_noise;

verus! {

/// The pattern a texture evaluates.
#[derive(Copy, Clone, Debug, PartialEq, Eq, Structural)]
pub enum TextureSpec {
    Constant(Color),
    Stripe(Color, Color),
    LinearGradient(Color, Color),
    RadialGradient(Color, Color),
    Ring(Color, Color),
    Checkerboard2D(Color, Color),
    Checkerboard3D(Color, Color),
    WhiteNoise,
    TestPattern,
}

/// A pattern with its own placement transform.
#[derive(Copy, Clone, Debug, PartialEq, Eq, Structural)]
pub struct Texture {
    pub kind: TextureSpec,
    pub transform: Transform,
}

/// What evaluating a pattern at a texture-space point may return: every
/// deterministic pattern pins the color exactly; white noise returns white
/// under some random brightness.
#[verifier::opaque]
pub open spec fn texture_local_result(kind: TextureSpec, p: Tuple4, c: Color) -> bool {
    match kind {
        TextureSpec::Constant(k) => c == k,
        TextureSpec::Stripe(a, b) => c == stripe::spec_stripe_at(p, a, b),
        TextureSpec::LinearGradient(a, b) => c == linear_gradient::spec_linear_gradient_at(
            p,
            a,
            b,
        ),
        TextureSpec::RadialGradient(a, b) => c == radial_gradient::spec_radial_gradient_at(
            p,
            a,
            b,
        ),
        TextureSpec::Ring(a, b) => c == ring::spec_ring_at(p, a, b),
        TextureSpec::Checkerboard2D(a, b) => c == checkerboard_2d::spec_checkerboard_2d_at(
            p,
            a,
            b,
        ),
        TextureSpec::Checkerboard3D(a, b) => c == checkerboard_3d::spec_checkerboard_3d_at(
            p,
            a,
            b,
        ),
        TextureSpec::WhiteNoise => exists|u: Fx|
            0 <= u.raw < FX_SCALE && c == scscale(
                Color { r: Fx { raw: FX_SCALE }, g: Fx { raw: FX_SCALE }, b: Fx { raw: FX_SCALE } },
                u,
            ),
        TextureSpec::TestPattern => c == (Color { r: p.x, g: p.y, b: p.z }),
    }
}

/// What evaluating a texture at a world-space point may return: the point
/// is carried through the object's and the texture's inverse transforms,
/// except that a constant pattern skips the transforms.
#[verifier::opaque]
pub open spec fn texture_result(
    t: Texture,
    object_transform: Transform,
    world_point: Tuple4,
    c: Color,
) -> bool {
    match t.kind {
        TextureSpec::Constant(k) => c == k,
        _ => {
            let object_point = spec_mat4_mul_tuple(object_transform.world_to_local, world_point);
            let texture_point = spec_mat4_mul_tuple(t.transform.world_to_local, object_point);
            texture_local_result(t.kind, texture_point, c)
        },
    }
}

impl Texture {
    /// The same color everywhere.
    pub fn constant(color: Color) -> (r: Texture)
        ensures
            r.kind == TextureSpec::Constant(color),
            r.transform.local_to_world == spec_identity4(),
            r.transform.world_to_local == spec_identity4(),
    {
        Texture { kind: TextureSpec::Constant(color), transform: Transform::new() }
    }

    /// Stripes along the x-axis.
    pub fn stripe(a: Color, b: Color) -> (r: Texture)
        ensures
            r.kind == TextureSpec::Stripe(a, b),
            r.transform.local_to_world == spec_identity4(),
            r.transform.world_to_local == spec_identity4(),
    {
        Texture { kind: TextureSpec::Stripe(a, b), transform: Transform::new() }
    }

    /// A gradient along the x-axis.
    pub fn linear_gradient(a: Color, b: Color) -> (r: Texture)
        ensures
            r.kind == TextureSpec::LinearGradient(a, b),
            r.transform.local_to_world == spec_identity4(),
            r.transform.world_to_local == spec_identity4(),
    {
        Texture { kind: TextureSpec::LinearGradient(a, b), transform: Transform::new() }
    }

    /// A gradient with the distance from the y-axis.
    pub fn radial_gradient(a: Color, b: Color) -> (r: Texture)
        ensures
            r.kind == TextureSpec::RadialGradient(a, b),
            r.transform.local_to_world == spec_identity4(),
            r.transform.world_to_local == spec_identity4(),
    {
        Texture { kind: TextureSpec::RadialGradient(a, b), transform: Transform::new() }
    }

    /// Concentric rings around the y-axis.
    pub fn ring(a: Color, b: Color) -> (r: Texture)
        ensures
            r.kind == TextureSpec::Ring(a, b),
            r.transform.local_to_world == spec_identity4(),
            r.transform.world_to_local == spec_identity4(),
    {
        Texture { kind: TextureSpec::Ring(a, b), transform: Transform::new() }
    }

    /// A checkerboard over the x-z plane.
    pub fn checkerboard_2d(a: Color, b: Color) -> (r: Texture)
        ensures
            r.kind == TextureSpec::Checkerboard2D(a, b),
            r.transform.local_to_world == spec_identity4(),
            r.transform.world_to_local == spec_identity4(),
    {
        Texture { kind: TextureSpec::Checkerboard2D(a, b), transform: Transform::new() }
    }

    /// A checkerboard over all three axes.
    pub fn checkerboard_3d(a: Color, b: Color) -> (r: Texture)
        ensures
            r.kind == TextureSpec::Checkerboard3D(a, b),
            r.transform.local_to_world == spec_identity4(),
            r.transform.world_to_local == spec_identity4(),
    {
        Texture { kind: TextureSpec::Checkerboard3D(a, b), transform: Transform::new() }
    }

    /// Random brightness.
    pub fn white_noise() -> (r: Texture)
        ensures
            r.kind == TextureSpec::WhiteNoise,
            r.transform.local_to_world == spec_identity4(),
            r.transform.world_to_local == spec_identity4(),
    {
        Texture { kind: TextureSpec::WhiteNoise, transform: Transform::new() }
    }

    /// A pattern reporting the point it was evaluated at, for exercising
    /// the transform plumbing.
    pub fn test_pattern() -> (r: Texture)
        ensures
            r.kind == TextureSpec::TestPattern,
            r.transform.local_to_world == spec_identity4(),
            r.transform.world_to_local == spec_identity4(),
    {
        Texture { kind: TextureSpec::TestPattern, transform: Transform::new() }
    }

    /// Returns the color at the given point in world space.
    pub fn evaluate(
        &self,
        rng: &mut rand::rngs::SmallRng,
        object_transform: Transform,
        world_point: Tuple4,
    ) -> (r: Color)
        ensures
            texture_result(*self, object_transform, world_point, r),
    {
        proof {
            reveal(texture_result);
            reveal(texture_local_result);
        }
        if let TextureSpec::Constant(color) = self.kind {
            // Skip transformations if the texture is constant everywhere.
            color
        } else {
            let object_point = object_transform.world_to_local.mul_tuple(world_point);
            let texture_point = self.transform.world_to_local.mul_tuple(object_point);
            self.evaluate_local(rng, texture_point)
        }
    }

    /// Returns the color at the given point in texture space.
    pub fn evaluate_local(&self, rng: &mut rand::rngs::SmallRng, texture_point: Tuple4) -> (r:
        Color)
        ensures
            texture_local_result(self.kind, texture_point, r),
    {
        proof {
            reveal(texture_local_result);
        }
        match self.kind {
            TextureSpec::Constant(color) => color,
            TextureSpec::Stripe(a, b) => stripe::evaluate(texture_point, a, b),
            TextureSpec::LinearGradient(a, b) => linear_gradient::evaluate(texture_point, a, b),
            TextureSpec::RadialGradient(a, b) => radial_gradient::evaluate(texture_point, a, b),
            TextureSpec::Ring(a, b) => ring::evaluate(texture_point, a, b),
            TextureSpec::Checkerboard2D(a, b) => checkerboard_2d::evaluate(texture_point, a, b),
            TextureSpec::Checkerboard3D(a, b) => checkerboard_3d::evaluate(texture_point, a, b),
            TextureSpec::WhiteNoise => white_noise::evaluate(rng, Color::white()),
            TextureSpec::TestPattern => Color {
                r: texture_point.x,
                g: texture_point.y,
                b: texture_point.z,
            },
        }
    }
}

} // verus!
