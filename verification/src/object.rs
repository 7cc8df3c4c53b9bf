//! An object: a geometry bound to a transform and a material.

use vstd::prelude::*;
use crate::geometry::Geometry;
use crate::material::Material;
use crate::transform::Transform;

verus! {

/// The stable index an object receives when added to a scene.
pub type ObjectId = usize;

/// A renderable object, assembled builder-style before insertion into a
/// scene.
#[derive(Copy, Clone, Debug)]
pub struct Object {
    pub transform: Transform,
    pub geometry: Geometry,
    pub material: Material,
    pub parent: Option<ObjectId>,
}

impl Object {
    /// A default object: a unit sphere with the default material and the
    /// identity transform.
    pub fn new() -> (r: Object)
        ensures
            r.transform.local_to_world == crate::matrix::spec_identity4(),
            r.transform.world_to_local == crate::matrix::spec_identity4(),
            r.geometry == Geometry::Sphere,
            r.material == crate::material::spec_default_material(),
            r.parent is None,
    {
        Object {
            transform: Transform::new(),
            geometry: Geometry::sphere(),
            material: Material::new(),
            parent: None,
        }
    }

    /// A copy with the given transform.
    pub fn transform(self, transform: Transform) -> (r: Object)
        ensures
            r.transform == transform,
            r.geometry == self.geometry && r.material == self.material && r.parent == self.parent,
    {
        Object { transform, ..self }
    }

    /// A copy with the given geometry.
    pub fn geometry(self, geometry: Geometry) -> (r: Object)
        ensures
            r.geometry == geometry,
            r.transform == self.transform && r.material == self.material && r.parent
                == self.parent,
    {
        Object { geometry, ..self }
    }

    /// A copy with the given material.
    pub fn material(self, material: Material) -> (r: Object)
        ensures
            r.material == material,
            r.transform == self.transform && r.geometry == self.geometry && r.parent
                == self.parent,
    {
        Object { material, ..self }
    }

    /// A copy grouped under the given parent object.
    pub fn parent(self, parent: ObjectId) -> (r: Object)
        ensures
            r.parent == Some(parent),
            r.transform == self.transform && r.geometry == self.geometry && r.material
                == self.material,
    {
        Object { parent: Some(parent), ..self }
    }
}

} // verus!
