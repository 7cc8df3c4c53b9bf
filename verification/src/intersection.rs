//! A single ray-object hit record.

use vstd::prelude::*;
use crate::fx::Fx;
use crate::object::ObjectId;

verus! {

/// One hit: the parametric distance along the ray and the object hit.
#[derive(Copy, Clone, Debug, PartialEq, Eq, Structural)]
pub struct Intersection {
    pub t: Fx,
    pub object_id: ObjectId,
}

} // verus!
