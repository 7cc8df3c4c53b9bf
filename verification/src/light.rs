//! Point lights.

use vstd::prelude::*;
use crate::color::Color;
use crate::tuple::Tuple4;

verus! {

/// A point light source with a position and a color intensity.
#[derive(Copy, Clone, Debug, PartialEq, Eq, Structural)]
pub struct Light {
    pub position: Tuple4,
    pub intensity: Color,
}

impl Light {
    /// Constructs a point light.
    pub fn new(position: Tuple4, intensity: Color) -> (r: Light)
        ensures
            r == (Light { position, intensity }),
    {
        Light { position, intensity }
    }
}

} // verus!
