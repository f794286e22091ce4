//! The camera: maps a pixel-grid cell to a world-space ray through a view
//! transform, and drives the per-pixel render loop.

use crate::canvas::canvas_wf;
use crate::canvas::Canvas;
use crate::fx::clamp_raw;
use crate::fx::fadd;
use crate::fx::fdiv;
use crate::fx::fmul;
use crate::fx::fsub;
use crate::fx::Fx;
use crate::fx::HALF_SCALE;
use crate::fx::MAX_RAW;
use crate::fx::SCALE;
use crate::matrix::spec_identity4;
use crate::matrix::spec_inverse4;
use crate::matrix::spec_invertible;
use crate::matrix::spec_mat_tuple;
use crate::matrix::Matrix4;
use crate::ray::Ray;
use crate::shape::spec_origin_point;
use crate::trig::fcos;
use crate::trig::ftan;
use crate::tuple::spec_normalize;
use crate::tuple::spec_sub;
use crate::tuple::Tuple;
use crate::world::spec_color_at;
use crate::world::spec_hit_of_ray;
use crate::world::world_materials_wf;
use crate::world::world_wf;
use crate::world::World;
use vstd::prelude::*;

verus! {

/// A camera: pixel resolution, field of view, a view transform, and the
/// half extents and pixel size derived once at construction.
#[derive(Debug)]
pub struct Camera {
    pub hsize: usize,
    pub vsize: usize,
    pub half_width: Fx,
    pub half_height: Fx,
    pub fov: Fx,
    pub transform: Matrix4,
    pub pixel_size: Fx,
}

/// A whole pixel count as a saturated scalar.
pub open spec fn spec_count_scalar(n: int) -> int {
    clamp_raw(n * SCALE as int)
}

/// Half the viewing span at unit distance: `tan(fov / 2)`.
pub open spec fn spec_half_view(fov: int) -> int {
    ftan(fdiv(fov, 2 * SCALE as int))
}

/// The width/height aspect ratio.
pub open spec fn spec_aspect(hsize: int, vsize: int) -> int {
    fdiv(spec_count_scalar(hsize), spec_count_scalar(vsize))
}

/// The half width of the view: the half view when the image is at least as
/// wide as tall, else scaled down by the aspect.
pub open spec fn spec_half_width(hsize: int, vsize: int, fov: int) -> int {
    if spec_aspect(hsize, vsize) >= SCALE as int {
        spec_half_view(fov)
    } else {
        fmul(spec_half_view(fov), spec_aspect(hsize, vsize))
    }
}

/// The half height of the view.
pub open spec fn spec_half_height(hsize: int, vsize: int, fov: int) -> int {
    if spec_aspect(hsize, vsize) >= SCALE as int {
        fdiv(spec_half_view(fov), spec_aspect(hsize, vsize))
    } else {
        spec_half_view(fov)
    }
}

/// The world-space side length of one pixel.
pub open spec fn spec_pixel_size(hsize: int, vsize: int, fov: int) -> int {
    fdiv(fmul(spec_half_width(hsize, vsize, fov), 2 * SCALE as int), spec_count_scalar(hsize))
}

/// The ray through the center of pixel `(px, py)`: offsets are measured
/// from the top-left in pixel sizes, the pixel sits on the canvas plane at
/// `z = -1` in camera space, and both it and the camera origin are carried
/// to world space by the inverse view transform.
#[verifier::opaque]
pub open spec fn spec_ray_for_pixel(cam: Camera, px: int, py: int) -> Ray {
    let xoffset = fmul(
        fadd(spec_count_scalar(px), HALF_SCALE as int),
        cam.pixel_size.raw as int,
    );
    let yoffset = fmul(
        fadd(spec_count_scalar(py), HALF_SCALE as int),
        cam.pixel_size.raw as int,
    );
    let world_x = fsub(cam.half_width.raw as int, xoffset);
    let world_y = fsub(cam.half_height.raw as int, yoffset);
    let inv = spec_inverse4(cam.transform);
    let pixel = spec_mat_tuple(
        inv,
        Tuple {
            x: Fx { raw: world_x as i64 },
            y: Fx { raw: world_y as i64 },
            z: Fx { raw: -1_000_000_000i64 },
            w: Fx { raw: SCALE },
        },
    );
    let origin = spec_mat_tuple(inv, spec_origin_point());
    let direction = spec_normalize(spec_sub(pixel, origin));
    Ray { origin, direction }
}

proof fn lemma_grid_index_injective(w: int, a1: int, b1: int, a2: int, b2: int)
    by (nonlinear_arith)
    requires
        0 <= a1 < w,
        0 <= a2 < w,
        0 <= b1,
        0 <= b2,
        w * b1 + a1 == w * b2 + a2,
    ensures
        a1 == a2,
        b1 == b2,
{
}

proof fn lemma_grid_cell(w: int, h: int, a: int, b: int)
    by (nonlinear_arith)
    requires
        0 <= a < w,
        0 <= b < h,
    ensures
        0 <= w * b + a < w * h,
{
}

/// A whole pixel count as a saturated scalar.
fn count_scalar(n: usize) -> (r: Fx)
    ensures
        r.raw as int == spec_count_scalar(n as int),
{
    if n >= 1_000_000 {
        Fx { raw: MAX_RAW }
    } else {
        Fx::from_int(n as i64)
    }
}

impl Camera {
    /// A camera with the identity view transform; the half extents and the
    /// pixel size are derived here, once. The field of view must not put a
    /// zero of the cosine at `fov / 2`, and the resolution must be at least
    /// one pixel each way.
    pub fn new(hsize: usize, vsize: usize, fov: Fx) -> (c: Camera)
        requires
            hsize >= 1,
            vsize >= 1,
            fcos(fdiv(fov.raw as int, 2 * SCALE as int)) != 0,
        ensures
            c.hsize == hsize,
            c.vsize == vsize,
            c.fov == fov,
            c.transform == spec_identity4(),
            c.half_width.raw as int == spec_half_width(hsize as int, vsize as int, fov.raw as int),
            c.half_height.raw as int == spec_half_height(
                hsize as int,
                vsize as int,
                fov.raw as int,
            ),
            c.pixel_size.raw as int == spec_pixel_size(hsize as int, vsize as int, fov.raw as int),
    {
        let half_view = fov.div(Fx { raw: 2 * SCALE }).tan();
        let ha = count_scalar(hsize);
        let va = count_scalar(vsize);
        let aspect = ha.div(va);
        let half_width: Fx;
        let half_height: Fx;
        if aspect.raw >= SCALE {
            half_width = half_view;
            half_height = half_view.div(aspect);
        } else {
            half_width = half_view.mul(aspect);
            half_height = half_view;
        }
        let pixel_size = half_width.mul(Fx { raw: 2 * SCALE }).div(ha);
        Camera {
            hsize,
            vsize,
            half_width,
            half_height,
            fov,
            transform: Matrix4::identity(),
            pixel_size,
        }
    }

    /// The world-space ray through the center of pixel `(px, py)`.
    pub fn ray_for_pixel(&self, px: usize, py: usize) -> (r: Ray)
        requires
            spec_invertible(self.transform),
        ensures
            r == spec_ray_for_pixel(*self, px as int, py as int),
    {
        proof {
            reveal(spec_ray_for_pixel);
        }
        let xoffset = count_scalar(px).add(Fx { raw: HALF_SCALE }).mul(self.pixel_size);
        let yoffset = count_scalar(py).add(Fx { raw: HALF_SCALE }).mul(self.pixel_size);
        let world_x = self.half_width.sub(xoffset);
        let world_y = self.half_height.sub(yoffset);
        let inv = self.transform.inverse();
        let pixel = inv.mul_tuple(&Tuple::point(world_x, world_y, Fx { raw: -SCALE }));
        let origin = inv.mul_tuple(
            &Tuple::point(Fx { raw: 0 }, Fx { raw: 0 }, Fx { raw: 0 }),
        );
        let direction = pixel.sub(origin).normalize_or_zero();
        Ray::new(origin, direction)
    }

    /// Render the world: one ray through the center of each pixel of the
    /// full grid, resolved with `color_at`, written row major. A light is
    /// needed only when some pixel's ray hits something.
    #[verifier::loop_isolation(false)]
    #[verifier::rlimit(100)]
    pub fn render(&self, w: &World) -> (image: Canvas)
        requires
            spec_invertible(self.transform),
            world_wf(*w),
            world_materials_wf(*w),
            self.hsize * self.vsize <= usize::MAX,
            w.light is Some || forall|px: int, py: int|
                0 <= px < self.hsize && 0 <= py < self.vsize ==> spec_hit_of_ray(
                    *w,
                    #[trigger] spec_ray_for_pixel(*self, px, py),
                ) is None,
        ensures
            image.width == self.hsize,
            image.height == self.vsize,
            canvas_wf(image),
            forall|px: int, py: int|
                0 <= px < self.hsize && 0 <= py < self.vsize ==> image.pixels@[self.hsize * py
                    + px] == spec_color_at(*w, #[trigger] spec_ray_for_pixel(*self, px, py)),
    {
        let mut image = Canvas::new(self.hsize, self.vsize);
        let mut x: usize = 0;
        while x < self.hsize
            invariant
                0 <= x <= self.hsize,
                image.width == self.hsize,
                image.height == self.vsize,
                canvas_wf(image),
                forall|a: int, b: int|
                    0 <= a < x && 0 <= b < self.vsize ==> image.pixels@[self.hsize * b + a]
                        == spec_color_at(*w, #[trigger] spec_ray_for_pixel(*self, a, b)),
            decreases self.hsize - x,
        {
            let mut y: usize = 0;
            while y < self.vsize
                invariant
                    0 <= x < self.hsize,
                    0 <= y <= self.vsize,
                    image.width == self.hsize,
                    image.height == self.vsize,
                    canvas_wf(image),
                    forall|a: int, b: int|
                        0 <= a < x && 0 <= b < self.vsize ==> image.pixels@[self.hsize * b + a]
                            == spec_color_at(*w, #[trigger] spec_ray_for_pixel(*self, a, b)),
                    forall|b: int|
                        0 <= b < y ==> image.pixels@[self.hsize * b + x as int] == spec_color_at(
                            *w,
                            #[trigger] spec_ray_for_pixel(*self, x as int, b),
                        ),
                decreases self.vsize - y,
            {
                let ray = self.ray_for_pixel(x, y);
                let color = w.color_at(&ray);
                let ghost before = image.pixels@;
                image.write_pixel(x, y, color);
                proof {
                    let hs = self.hsize as int;
                    let vs = self.vsize as int;
                    assert(image.pixels@ == before.update(hs * (y as int) + x as int, color));
                    lemma_grid_cell(hs, vs, x as int, y as int);
                    assert forall|a: int, b: int|
                        0 <= a < x && 0 <= b < self.vsize implies image.pixels@[self.hsize * b
                        + a] == spec_color_at(*w, #[trigger] spec_ray_for_pixel(*self, a, b)) by {
                        lemma_grid_cell(hs, vs, a, b);
                        if hs * b + a == hs * (y as int) + x as int {
                            lemma_grid_index_injective(hs, a, b, x as int, y as int);
                        }
                    }
                    assert forall|b: int|
                        0 <= b < y + 1 implies image.pixels@[self.hsize * b + x as int]
                        == spec_color_at(
                        *w,
                        #[trigger] spec_ray_for_pixel(*self, x as int, b),
                    ) by {
                        lemma_grid_cell(hs, vs, x as int, b);
                        if b < y {
                            if hs * b + x as int == hs * (y as int) + x as int {
                                lemma_grid_index_injective(hs, x as int, b, x as int, y as int);
                            }
                        }
                    }
                }
                y = y + 1;
            }
            x = x + 1;
        }
        image
    }
}

} // verus!
