//! The pixel buffer a render writes into.

use vstd::prelude::*;
use crate::color::{Color, spec_clamp01};
use crate::fx::{Fx, FX_SCALE, fx_div};

verus! {

/// A rectangular pixel buffer storing interleaved 8-bit RGB.
pub struct Canvas {
    pub width: usize,
    pub height: usize,
    pub data: Vec<u8>,
}

/// The byte a raw color channel is stored as: the channel clamped into
/// `[0, 1]`, scaled to 255 and rounded to the nearest whole value.
pub open spec fn spec_channel_byte(v: int) -> int {
    (spec_clamp01(v) * 255 + 5_000_000) / 10_000_000
}

/// The raw color channel a stored byte reads back as.
pub open spec fn spec_byte_channel(v: int) -> int {
    fx_div(v * FX_SCALE as int, 255 * FX_SCALE as int)
}

impl Canvas {
    /// The buffer holds exactly three bytes per pixel.
    pub open spec fn wf(&self) -> bool {
        self.data@.len() == 3 * self.width as int * self.height as int
    }

    /// Constructs a Canvas of the given width and height.
    ///
    /// Pixel data is stored as interleaved 8 bit RGB.
    pub fn new(width: usize, height: usize) -> (c: Canvas)
        requires
            3 * width * height <= usize::MAX,
        ensures
            c.width == width,
            c.height == height,
            c.wf(),
            forall|i: int| 0 <= i < c.data@.len() ==> c.data@[i] == 0u8,
    {
        proof {
            vstd::arithmetic::mul::lemma_mul_nonnegative(width as int, height as int);
            vstd::arithmetic::mul::lemma_mul_is_associative(3, width as int, height as int);
        }
        let n: usize = 3 * (width * height);
        let mut data: Vec<u8> = Vec::new();
        let mut i: usize = 0;
        while i < n
            invariant
                i <= n,
                data@.len() == i,
                forall|k: int| 0 <= k < i ==> data@[k] == 0u8,
            decreases n - i,
        {
            data.push(0);
            i += 1;
        }
        proof {
            vstd::arithmetic::mul::lemma_mul_is_associative(3, width as int, height as int);
        }
        Canvas { width, height, data }
    }

    /// Reads the color of the pixel at `(x, y)`.
    pub fn get_color(&self, x: usize, y: usize) -> (c: Color)
        requires
            self.wf(),
            x < self.width,
            y < self.height,
        ensures
            ({
                let i = 3 * (self.width as int * y as int + x as int);
                &&& c.r.raw == spec_byte_channel(self.data@[i] as int)
                &&& c.g.raw == spec_byte_channel(self.data@[i + 1] as int)
                &&& c.b.raw == spec_byte_channel(self.data@[i + 2] as int)
            }),
    {
        // Bind the buffer length so the index arithmetic below is known to
        // stay within the machine range.
        let _buffer_len = self.data.len();
        proof {
            lemma_pixel_index(self.width as int, self.height as int, x as int, y as int);
        }
        let i = 3 * (self.width * y + x);
        Color {
            r: byte_to_channel(self.data[i]),
            g: byte_to_channel(self.data[i + 1]),
            b: byte_to_channel(self.data[i + 2]),
        }
    }

    /// Writes the color of the pixel at `(x, y)`, clamped to `[0, 1]` and
    /// quantized to bytes.
    pub fn set_color(&mut self, x: usize, y: usize, color: Color)
        requires
            old(self).wf(),
            x < old(self).width,
            y < old(self).height,
        ensures
            final(self).width == old(self).width,
            final(self).height == old(self).height,
            final(self).wf(),
            ({
                let i = 3 * (old(self).width as int * y as int + x as int);
                final(self).data@ == old(self).data@
                    .update(i, spec_channel_byte(color.r.raw as int) as u8)
                    .update(i + 1, spec_channel_byte(color.g.raw as int) as u8)
                    .update(i + 2, spec_channel_byte(color.b.raw as int) as u8)
            }),
    {
        // Bind the buffer length so the index arithmetic below is known to
        // stay within the machine range.
        let _buffer_len = self.data.len();
        proof {
            lemma_pixel_index(self.width as int, self.height as int, x as int, y as int);
        }
        let r = channel_to_byte(color.r);
        let g = channel_to_byte(color.g);
        let b = channel_to_byte(color.b);
        let i = 3 * (self.width * y + x);
        self.data[i] = r;
        self.data[i + 1] = g;
        self.data[i + 2] = b;
    }
}

/// The first byte of pixel `(x, y)` lies inside the buffer.
proof fn lemma_pixel_index(w: int, h: int, x: int, y: int)
    requires
        0 <= x < w,
        0 <= y < h,
    ensures
        0 <= w * y,
        0 <= 3 * (w * y + x),
        3 * (w * y + x) + 2 < 3 * w * h,
{
    vstd::arithmetic::mul::lemma_mul_nonnegative(w, y);
    assert(w * y + x < w * h) by (nonlinear_arith)
        requires
            0 <= x < w,
            0 <= y < h,
    ;
    assert(3 * (w * y + x) + 2 < 3 * (w * h)) by (nonlinear_arith)
        requires
            w * y + x < w * h,
            0 <= w * y + x,
    ;
    assert(3 * (w * h) == 3 * w * h) by (nonlinear_arith);
    assert(0 <= w * y + x) by (nonlinear_arith)
        requires
            0 <= x < w,
            0 <= y < h,
    ;
}

/// Quantize a raw channel into its stored byte.
fn channel_to_byte(v: Fx) -> (r: u8)
    ensures
        r as int == spec_channel_byte(v.raw as int),
{
    let c = v.min(Fx::one()).max(Fx::zero());
    let m: u64 = (c.raw as u64) * 255 + 5_000_000;
    proof {
        vstd::arithmetic::div_mod::lemma_div_is_ordered(m as int, 2_555_000_000, 10_000_000);
    }
    (m / 10_000_000) as u8
}

/// Read a stored byte back as a raw channel.
fn byte_to_channel(v: u8) -> (r: Fx)
    ensures
        r.raw == spec_byte_channel(v as int),
{
    Fx::from_int(v as i64).div(Fx::from_int(255))
}

} // verus!
