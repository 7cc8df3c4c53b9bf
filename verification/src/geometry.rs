//! The closed set of geometric primitives, each intersected and queried for
//! its surface normal in its own local space.

use vstd::prelude::*;
use crate::fx::Fx;
use crate::intersections::{Intersections, spec_intersections_new, spec_len, spec_ordered};
use crate::ray::Ray;
use crate::tuple::{Tuple4, svec};

pub mod cone;
pub mod cube;
pub mod cylinder;
pub mod plane;
pub mod sphere;

verus! {

/// Distances below this stand for zero when guarding near-parallel rays
/// and near-tangent discriminants.
pub const GEOM_EPS_RAW: i64 = 100;

/// A primitive shape, centered at the local origin and unit-sized.
#[derive(Copy, Clone, Debug, PartialEq, Eq, Structural)]
pub enum Geometry {
    Plane,
    Sphere,
    Cube,
    Cone { min: Fx, max: Fx, closed: bool },
    Cylinder { min: Fx, max: Fx, closed: bool },
    TestShape,
}

/// The local-space intersections of a ray with a shape.
#[verifier::opaque]
pub open spec fn spec_geometry_intersect(g: Geometry, ray: Ray) -> Intersections {
    match g {
        Geometry::Plane => plane::spec_plane_intersect(ray),
        Geometry::Sphere => sphere::spec_sphere_intersect(ray),
        Geometry::Cube => cube::spec_cube_intersect(ray),
        Geometry::Cone { min, max, closed } => cone::spec_cone_intersect(ray, min, max, closed),
        Geometry::Cylinder { min, max, closed } => cylinder::spec_cylinder_intersect(
            ray,
            min,
            max,
            closed,
        ),
        Geometry::TestShape => spec_intersections_new(),
    }
}

/// The local-space surface normal of a shape at a point.
#[verifier::opaque]
pub open spec fn spec_geometry_normal_at(g: Geometry, point: Tuple4) -> Tuple4 {
    match g {
        Geometry::Plane => plane::spec_plane_normal_at(point),
        Geometry::Sphere => sphere::spec_sphere_normal_at(point),
        Geometry::Cube => cube::spec_cube_normal_at(point),
        Geometry::Cone { min, max, closed } => cone::spec_cone_normal_at(point, min, max),
        Geometry::Cylinder { min, max, closed } => cylinder::spec_cylinder_normal_at(
            point,
            min,
            max,
        ),
        Geometry::TestShape => svec(Fx { raw: 0 }, Fx { raw: 0 }, Fx { raw: 0 }),
    }
}

/// Every shape's hits come back in ascending parametric order, and never
/// more than the two nearest of them.
pub proof fn lemma_geometry_intersect_ordered(g: Geometry, ray: Ray)
    ensures
        spec_ordered(spec_geometry_intersect(g, ray)),
        0 <= spec_len(spec_geometry_intersect(g, ray)) <= 2,
{
    reveal(spec_geometry_intersect);
    match g {
        Geometry::Plane => plane::lemma_plane_intersect_ordered(ray),
        Geometry::Sphere => sphere::lemma_sphere_intersect_ordered(ray),
        Geometry::Cube => cube::lemma_cube_intersect_ordered(ray),
        Geometry::Cone { min, max, closed } => cone::lemma_cone_intersect_ordered(
            ray,
            min,
            max,
            closed,
        ),
        Geometry::Cylinder { min, max, closed } => cylinder::lemma_cylinder_intersect_ordered(
            ray,
            min,
            max,
            closed,
        ),
        Geometry::TestShape => {},
    }
}

impl Geometry {
    /// The plane `y == 0`.
    pub fn plane() -> (g: Geometry)
        ensures
            g == Geometry::Plane,
    {
        Geometry::Plane
    }

    /// The unit sphere at the origin.
    pub fn sphere() -> (g: Geometry)
        ensures
            g == Geometry::Sphere,
    {
        Geometry::Sphere
    }

    /// The unit cube at the origin.
    pub fn cube() -> (g: Geometry)
        ensures
            g == Geometry::Cube,
    {
        Geometry::Cube
    }

    /// An unbounded, open cone with its apex at the origin.
    pub fn cone() -> (g: Geometry)
        ensures
            g == (Geometry::Cone {
                min: Fx { raw: i64::MIN },
                max: Fx { raw: i64::MAX },
                closed: false,
            }),
    {
        Geometry::Cone { min: Fx::min_value(), max: Fx::max_value(), closed: false }
    }

    /// An unbounded, open cylinder of radius one around the y-axis.
    pub fn cylinder() -> (g: Geometry)
        ensures
            g == (Geometry::Cylinder {
                min: Fx { raw: i64::MIN },
                max: Fx { raw: i64::MAX },
                closed: false,
            }),
    {
        Geometry::Cylinder { min: Fx::min_value(), max: Fx::max_value(), closed: false }
    }

    /// A shape that nothing hits, for exercising the machinery around it.
    pub fn test() -> (g: Geometry)
        ensures
            g == Geometry::TestShape,
    {
        Geometry::TestShape
    }

    /// Returns the collection of Intersections where the ray intersects the
    /// geometry.
    pub fn intersect(self, ray: Ray) -> (r: Intersections)
        ensures
            r == spec_geometry_intersect(self, ray),
    {
        proof {
            reveal(spec_geometry_intersect);
        }
        match self {
            Geometry::Plane => plane::intersect(ray),
            Geometry::Sphere => sphere::intersect(ray),
            Geometry::Cube => cube::intersect(ray),
            Geometry::Cone { min, max, closed } => cone::intersect(ray, min, max, closed),
            Geometry::Cylinder { min, max, closed } => cylinder::intersect(ray, min, max, closed),
            Geometry::TestShape => Intersections::new(),
        }
    }

    /// Returns the surface normal at the given point.
    pub fn normal_at(self, point: Tuple4) -> (r: Tuple4)
        ensures
            r == spec_geometry_normal_at(self, point),
    {
        proof {
            reveal(spec_geometry_normal_at);
        }
        match self {
            Geometry::Plane => plane::normal_at(point),
            Geometry::Sphere => sphere::normal_at(point),
            Geometry::Cube => cube::normal_at(point),
            Geometry::Cone { min, max, closed } => cone::normal_at(point, min, max, closed),
            Geometry::Cylinder { min, max, closed } => cylinder::normal_at(point, min, max, closed),
            Geometry::TestShape => crate::tuple::vector3(Fx::zero(), Fx::zero(), Fx::zero()),
        }
    }
}

} // verus!
