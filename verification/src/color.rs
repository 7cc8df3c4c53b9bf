//! RGB colors with fixed-point channels.

use vstd::prelude::*;
use crate::fx::{Fx, FX_SCALE, fx_add, fx_sub, fx_mul};

verus! {

/// An RGB color; channels normally lie in `[0, 1]` but intermediate
/// shading results may leave that range until clamped.
#[derive(Copy, Clone, Debug, PartialEq, Eq, Structural)]
pub struct Color {
    pub r: Fx,
    pub g: Fx,
    pub b: Fx,
}

/// A raw channel clamped into `[0, 1]`: the smaller of it and one, then the
/// larger of that and zero.
pub open spec fn spec_clamp01(v: int) -> int {
    let low = if v <= FX_SCALE as int {
        v
    } else {
        FX_SCALE as int
    };
    if low >= 0 {
        low
    } else {
        0
    }
}

/// Black as a value: every channel zero.
pub open spec fn spec_black() -> Color {
    Color { r: Fx { raw: 0 }, g: Fx { raw: 0 }, b: Fx { raw: 0 } }
}

/// The component-wise sum as a color value.
pub open spec fn scadd(a: Color, b: Color) -> Color {
    Color {
        r: Fx { raw: fx_add(a.r.raw as int, b.r.raw as int) as i64 },
        g: Fx { raw: fx_add(a.g.raw as int, b.g.raw as int) as i64 },
        b: Fx { raw: fx_add(a.b.raw as int, b.b.raw as int) as i64 },
    }
}

/// The component-wise difference as a color value.
pub open spec fn scsub(a: Color, b: Color) -> Color {
    Color {
        r: Fx { raw: fx_sub(a.r.raw as int, b.r.raw as int) as i64 },
        g: Fx { raw: fx_sub(a.g.raw as int, b.g.raw as int) as i64 },
        b: Fx { raw: fx_sub(a.b.raw as int, b.b.raw as int) as i64 },
    }
}

/// The component-wise (Hadamard) product as a color value.
pub open spec fn scmul(a: Color, b: Color) -> Color {
    Color {
        r: Fx { raw: fx_mul(a.r.raw as int, b.r.raw as int) as i64 },
        g: Fx { raw: fx_mul(a.g.raw as int, b.g.raw as int) as i64 },
        b: Fx { raw: fx_mul(a.b.raw as int, b.b.raw as int) as i64 },
    }
}

/// Each channel scaled, as a color value.
pub open spec fn scscale(a: Color, s: Fx) -> Color {
    Color {
        r: Fx { raw: fx_mul(a.r.raw as int, s.raw as int) as i64 },
        g: Fx { raw: fx_mul(a.g.raw as int, s.raw as int) as i64 },
        b: Fx { raw: fx_mul(a.b.raw as int, s.raw as int) as i64 },
    }
}

/// Every channel clamped, as a color value.
pub open spec fn scclamp(a: Color) -> Color {
    Color {
        r: Fx { raw: spec_clamp01(a.r.raw as int) as i64 },
        g: Fx { raw: spec_clamp01(a.g.raw as int) as i64 },
        b: Fx { raw: spec_clamp01(a.b.raw as int) as i64 },
    }
}

impl Color {
    /// Pure white.
    pub fn white() -> (c: Color)
        ensures
            c.r.raw == FX_SCALE && c.g.raw == FX_SCALE && c.b.raw == FX_SCALE,
    {
        Color { r: Fx::one(), g: Fx::one(), b: Fx::one() }
    }

    /// Pure black.
    pub fn black() -> (c: Color)
        ensures
            c.r.raw == 0 && c.g.raw == 0 && c.b.raw == 0,
    {
        Color { r: Fx::zero(), g: Fx::zero(), b: Fx::zero() }
    }

    /// Constructs a color from its three channels.
    pub fn new(r: Fx, g: Fx, b: Fx) -> (c: Color)
        ensures
            c == (Color { r, g, b }),
    {
        Color { r, g, b }
    }

    /// Clamps each color component to the range [0, 1].
    pub fn clamp(&self) -> (c: Color)
        ensures
            c == scclamp(*self),
            c.r.raw == spec_clamp01(self.r.raw as int),
            c.g.raw == spec_clamp01(self.g.raw as int),
            c.b.raw == spec_clamp01(self.b.raw as int),
    {
        Color {
            r: self.r.min(Fx::one()).max(Fx::zero()),
            g: self.g.min(Fx::one()).max(Fx::zero()),
            b: self.b.min(Fx::one()).max(Fx::zero()),
        }
    }

    /// Component-wise sum.
    pub fn add(self, other: Color) -> (c: Color)
        ensures
            c == scadd(self, other),
            c.r.raw == fx_add(self.r.raw as int, other.r.raw as int),
            c.g.raw == fx_add(self.g.raw as int, other.g.raw as int),
            c.b.raw == fx_add(self.b.raw as int, other.b.raw as int),
    {
        Color { r: self.r.add(other.r), g: self.g.add(other.g), b: self.b.add(other.b) }
    }

    /// Component-wise difference.
    pub fn sub(self, other: Color) -> (c: Color)
        ensures
            c == scsub(self, other),
            c.r.raw == fx_sub(self.r.raw as int, other.r.raw as int),
            c.g.raw == fx_sub(self.g.raw as int, other.g.raw as int),
            c.b.raw == fx_sub(self.b.raw as int, other.b.raw as int),
    {
        Color { r: self.r.sub(other.r), g: self.g.sub(other.g), b: self.b.sub(other.b) }
    }

    /// Component-wise (Hadamard) product of two colors.
    pub fn mul(self, other: Color) -> (c: Color)
        ensures
            c == scmul(self, other),
            c.r.raw == fx_mul(self.r.raw as int, other.r.raw as int),
            c.g.raw == fx_mul(self.g.raw as int, other.g.raw as int),
            c.b.raw == fx_mul(self.b.raw as int, other.b.raw as int),
    {
        Color { r: self.r.mul(other.r), g: self.g.mul(other.g), b: self.b.mul(other.b) }
    }

    /// Each channel scaled by a scalar.
    pub fn scale(self, other: Fx) -> (c: Color)
        ensures
            c == scscale(self, other),
            c.r.raw == fx_mul(self.r.raw as int, other.raw as int),
            c.g.raw == fx_mul(self.g.raw as int, other.raw as int),
            c.b.raw == fx_mul(self.b.raw as int, other.raw as int),
    {
        Color { r: self.r.mul(other), g: self.g.mul(other), b: self.b.mul(other) }
    }
}

} // verus!
