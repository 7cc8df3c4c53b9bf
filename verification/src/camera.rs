//! The camera: per-pixel ray generation from a field of view and a view
//! transform, and the render loop that fills a canvas.

use vstd::prelude::*;
use crate::canvas::{Canvas, spec_channel_byte};
use crate::color::{Color, scclamp};
use crate::fx::{Fx, FX_SCALE, fx_div, sat64, sadd, ssub, smul, sdiv};
use crate::matrix::{spec_identity4, spec_mat4_mul_tuple};
use crate::ray::Ray;
use crate::scene::{Scene, color_at_rec};
use crate::transform::Transform;
use crate::trig::spec_tan;
use crate::tuple::{Tuple4, point3, spec_normalize, stsub};

verus! {

/// A camera with a pixel grid and a view transform.
pub struct Camera {
    pub hsize: usize,
    pub vsize: usize,
    pub fov: Fx,
    pub transform: Transform,
    pub half_width: Fx,
    pub half_height: Fx,
    pub pixel_size: Fx,
}

/// The derived extents of the virtual image plane at distance one: half
/// the field of view spans the larger pixel dimension, the other extent
/// follows the aspect ratio, and a pixel's world-space size divides the
/// full width evenly.
pub open spec fn spec_camera_derived(hsize: int, vsize: int, fov: Fx) -> (Fx, Fx, Fx) {
    let half_view = Fx {
        raw: spec_tan(fx_div(fov.raw as int, 2 * FX_SCALE as int) as i64 as int) as i64,
    };
    let aspect = Fx {
        raw: fx_div(sat64(hsize * FX_SCALE as int), sat64(vsize * FX_SCALE as int)) as i64,
    };
    let half_width = if aspect.raw >= FX_SCALE {
        half_view
    } else {
        smul(half_view, aspect)
    };
    let half_height = if aspect.raw >= FX_SCALE {
        sdiv(half_view, aspect)
    } else {
        half_view
    };
    let pixel_size = sdiv(
        smul(half_width, Fx { raw: (2 * FX_SCALE) as i64 }),
        Fx { raw: sat64(hsize * FX_SCALE as int) as i64 },
    );
    (half_width, half_height, pixel_size)
}

/// The ray from the camera through the center of pixel `(x, y)`: the pixel
/// center on the image plane at local `z == -1`, carried into world space
/// together with the camera origin.
pub open spec fn spec_camera_ray(c: Camera, x: int, y: int) -> Ray {
    let half = Fx { raw: 5_000_000 };
    let xoffset = smul(sadd(Fx { raw: sat64(x * FX_SCALE as int) as i64 }, half), c.pixel_size);
    let yoffset = smul(sadd(Fx { raw: sat64(y * FX_SCALE as int) as i64 }, half), c.pixel_size);
    let world_x = ssub(c.half_width, xoffset);
    let world_y = ssub(c.half_height, yoffset);
    let pixel = spec_mat4_mul_tuple(
        c.transform.world_to_local,
        Tuple4 {
            x: world_x,
            y: world_y,
            z: Fx { raw: (-FX_SCALE) as i64 },
            w: Fx { raw: FX_SCALE },
        },
    );
    let origin = spec_mat4_mul_tuple(
        c.transform.world_to_local,
        Tuple4 { x: Fx { raw: 0 }, y: Fx { raw: 0 }, z: Fx { raw: 0 }, w: Fx { raw: FX_SCALE } },
    );
    let direction = spec_normalize(stsub(pixel, origin));
    Ray { origin, direction }
}

/// Pixel `(x, y)` of the canvas holds a color the recursive shading may
/// return for the camera ray through it, clamped and quantized.
pub open spec fn rendered_pixel(s: Scene, cam: Camera, data: Seq<u8>, x: int, y: int) -> bool {
    exists|c: Color|
        {
            let i = 3 * (cam.hsize as int * y + x);
            &&& #[trigger] color_at_rec(s, spec_camera_ray(cam, x, y), s.max_depth as nat, c)
            &&& data[i] == spec_channel_byte(scclamp(c).r.raw as int) as u8
            &&& data[i + 1] == spec_channel_byte(scclamp(c).g.raw as int) as u8
            &&& data[i + 2] == spec_channel_byte(scclamp(c).b.raw as int) as u8
        }
}

impl Camera {
    /// Constructs a camera with the given horizontal size (in pixels),
    /// vertical size (in pixels), and field of view (in radians).
    pub fn new(hsize: usize, vsize: usize, fov: Fx) -> (r: Camera)
        requires
            1 <= hsize <= 1_000_000_000,
            1 <= vsize <= 1_000_000_000,
        ensures
            r.hsize == hsize,
            r.vsize == vsize,
            r.fov == fov,
            r.transform.local_to_world == spec_identity4(),
            r.transform.world_to_local == spec_identity4(),
            (r.half_width, r.half_height, r.pixel_size) == spec_camera_derived(
                hsize as int,
                vsize as int,
                fov,
            ),
    {
        let half_view = fov.div(Fx::from_int(2)).tan();
        let aspect = Fx::from_int(hsize as i64).div(Fx::from_int(vsize as i64));

        let (half_width, half_height) = if aspect.raw >= FX_SCALE {
            (half_view, half_view.div(aspect))
        } else {
            (half_view.mul(aspect), half_view)
        };

        let pixel_size = half_width.mul(Fx::from_int(2)).div(Fx::from_int(hsize as i64));

        Camera {
            hsize,
            vsize,
            fov,
            transform: Transform::new(),
            half_width,
            half_height,
            pixel_size,
        }
    }

    /// Returns a ray that starts at the camera and passes through the
    /// indicated (x, y) pixel on the canvas.
    pub fn ray(&self, x: usize, y: usize) -> (r: Ray)
        requires
            x <= 1_000_000_000,
            y <= 1_000_000_000,
        ensures
            r == spec_camera_ray(*self, x as int, y as int),
    {
        let half = Fx { raw: 5_000_000 };
        // The offset from the edge of the canvas to the pixel's center.
        let xoffset = Fx::from_int(x as i64).add(half).mul(self.pixel_size);
        let yoffset = Fx::from_int(y as i64).add(half).mul(self.pixel_size);

        // The untransformed coordinates of the pixel in world space.
        // (The camera looks toward -z, so +x is to the left.)
        let world_x = self.half_width.sub(xoffset);
        let world_y = self.half_height.sub(yoffset);

        // Using the camera matrix, transform the canvas point and the
        // origin, and then compute the ray's direction vector.
        // (The canvas is at z = -1.)
        let pixel = self.transform.world_to_local.mul_tuple(
            point3(world_x, world_y, Fx::one().neg()),
        );
        let origin = self.transform.world_to_local.mul_tuple(
            point3(Fx::zero(), Fx::zero(), Fx::zero()),
        );
        let direction = pixel.sub(origin).normalize();

        crate::ray::ray(origin, direction)
    }

    /// Points the camera with a view transform.
    pub fn set_transform(&mut self, transform: Transform)
        ensures
            final(self).transform == transform,
            final(self).hsize == old(self).hsize,
            final(self).vsize == old(self).vsize,
            final(self).fov == old(self).fov,
            final(self).half_width == old(self).half_width,
            final(self).half_height == old(self).half_height,
            final(self).pixel_size == old(self).pixel_size,
    {
        self.transform = transform;
    }

    /// Renders the scene: every pixel of the canvas receives the shading
    /// of the camera ray through it.
    pub fn render(&self, rng: &mut rand::rngs::SmallRng, scene: &Scene) -> (image: Canvas)
        requires
            1 <= self.hsize <= 1_000_000_000,
            1 <= self.vsize <= 1_000_000_000,
            3 * self.hsize * self.vsize <= usize::MAX,
            scene.wf(),
            scene.lights@.len() >= 1,
        ensures
            image.width == self.hsize,
            image.height == self.vsize,
            image.wf(),
            forall|x: int, y: int|
                0 <= x < self.hsize && 0 <= y < self.vsize ==> rendered_pixel(
                    *scene,
                    *self,
                    image.data@,
                    x,
                    y,
                ),
    {
        let mut image = Canvas::new(self.hsize, self.vsize);

        let mut y: usize = 0;
        while y < self.vsize
            invariant
                1 <= self.hsize <= 1_000_000_000,
                1 <= self.vsize <= 1_000_000_000,
                scene.wf(),
                scene.lights@.len() >= 1,
                y <= self.vsize,
                image.width == self.hsize,
                image.height == self.vsize,
                image.wf(),
                forall|px: int, py: int|
                    0 <= px < self.hsize && 0 <= py < y ==> rendered_pixel(
                        *scene,
                        *self,
                        image.data@,
                        px,
                        py,
                    ),
            decreases self.vsize - y,
        {
            let mut x: usize = 0;
            while x < self.hsize
                invariant
                    1 <= self.hsize <= 1_000_000_000,
                    1 <= self.vsize <= 1_000_000_000,
                    scene.wf(),
                    scene.lights@.len() >= 1,
                    y < self.vsize,
                    x <= self.hsize,
                    image.width == self.hsize,
                    image.height == self.vsize,
                    image.wf(),
                    forall|px: int, py: int|
                        0 <= px < self.hsize && 0 <= py < y ==> rendered_pixel(
                            *scene,
                            *self,
                            image.data@,
                            px,
                            py,
                        ),
                    forall|px: int|
                        0 <= px < x ==> rendered_pixel(*scene, *self, image.data@, px, y as int),
                decreases self.hsize - x,
            {
                let ghost before = image.data@;
                let pixel_ray = self.ray(x, y);
                let color = scene.color_at(rng, pixel_ray);
                let ghost shaded = choose|c: Color|
                    color_at_rec(*scene, pixel_ray, scene.max_depth as nat, c) && color == scclamp(
                        c,
                    );
                image.set_color(x, y, color);
                proof {
                    lemma_render_step(
                        *scene,
                        *self,
                        before,
                        image.data@,
                        x as int,
                        y as int,
                        shaded,
                    );
                }
                x += 1;
            }
            y += 1;
        }
        image
    }
}

/// Writing one shaded pixel makes that pixel rendered and leaves every
/// other pixel's bytes unchanged.
proof fn lemma_render_step(
    s: Scene,
    cam: Camera,
    before: Seq<u8>,
    after: Seq<u8>,
    x: int,
    y: int,
    shaded: Color,
)
    requires
        0 <= x < cam.hsize,
        0 <= y < cam.vsize,
        color_at_rec(s, spec_camera_ray(cam, x, y), s.max_depth as nat, shaded),
        after == before.update(
            3 * (cam.hsize as int * y + x),
            spec_channel_byte(scclamp(shaded).r.raw as int) as u8,
        ).update(
            3 * (cam.hsize as int * y + x) + 1,
            spec_channel_byte(scclamp(shaded).g.raw as int) as u8,
        ).update(
            3 * (cam.hsize as int * y + x) + 2,
            spec_channel_byte(scclamp(shaded).b.raw as int) as u8,
        ),
        before.len() == 3 * cam.hsize as int * cam.vsize as int,
    ensures
        rendered_pixel(s, cam, after, x, y),
        forall|px: int, py: int|
            0 <= px < cam.hsize && 0 <= py < cam.vsize && !(px == x && py == y)
                && rendered_pixel(s, cam, before, px, py) ==> rendered_pixel(s, cam, after, px, py),
{
    let w = cam.hsize as int;
    let i = 3 * (w * y + x);
    lemma_pixel_in_buffer(w, cam.vsize as int, x, y);
    assert(rendered_pixel(s, cam, after, x, y)) by {
        assert(after[i] == spec_channel_byte(scclamp(shaded).r.raw as int) as u8);
        assert(after[i + 1] == spec_channel_byte(scclamp(shaded).g.raw as int) as u8);
        assert(after[i + 2] == spec_channel_byte(scclamp(shaded).b.raw as int) as u8);
    }
    assert forall|px: int, py: int|
        0 <= px < cam.hsize && 0 <= py < cam.vsize && !(px == x && py == y) && rendered_pixel(
            s,
            cam,
            before,
            px,
            py,
        ) implies rendered_pixel(s, cam, after, px, py) by {
        let j = 3 * (w * py + px);
        assert(j + 2 < i || i + 2 < j) by (nonlinear_arith)
            requires
                0 <= px < w,
                0 <= x < w,
                0 <= py,
                0 <= y,
                !(px == x && py == y),
                j == 3 * (w * py + px),
                i == 3 * (w * y + x),
        ;
        lemma_pixel_in_buffer(w, cam.vsize as int, px, py);
        assert(after[j] == before[j] && after[j + 1] == before[j + 1] && after[j + 2] == before[j
            + 2]);
        let c = choose|c: Color|
            {
                &&& #[trigger] color_at_rec(s, spec_camera_ray(cam, px, py), s.max_depth as nat, c)
                &&& before[j] == spec_channel_byte(scclamp(c).r.raw as int) as u8
                &&& before[j + 1] == spec_channel_byte(scclamp(c).g.raw as int) as u8
                &&& before[j + 2] == spec_channel_byte(scclamp(c).b.raw as int) as u8
            };
        assert(color_at_rec(s, spec_camera_ray(cam, px, py), s.max_depth as nat, c) && after[j]
            == spec_channel_byte(scclamp(c).r.raw as int) as u8 && after[j + 1]
            == spec_channel_byte(scclamp(c).g.raw as int) as u8 && after[j + 2]
            == spec_channel_byte(scclamp(c).b.raw as int) as u8);
    }
}

/// The three bytes of a pixel lie inside the buffer.
proof fn lemma_pixel_in_buffer(w: int, h: int, x: int, y: int)
    requires
        0 <= x < w,
        0 <= y < h,
    ensures
        0 <= 3 * (w * y + x),
        3 * (w * y + x) + 2 < 3 * w * h,
{
    assert(0 <= w * y && w * y + x < w * h) by (nonlinear_arith)
        requires
            0 <= x < w,
            0 <= y < h,
    ;
    assert(3 * (w * y + x) + 2 < 3 * (w * h)) by (nonlinear_arith)
        requires
            0 <= w * y + x < w * h,
    ;
    assert(3 * (w * h) == 3 * w * h) by (nonlinear_arith);
}

} // verus!
