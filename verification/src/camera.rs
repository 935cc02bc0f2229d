//! Camera ray generation and full-frame rendering.

use vstd::prelude::*;

verus! {

use crate::math::fixed::{ONE, VB, iabs};
use crate::math::space::{Vec3, Pos, add_s, sub_s, scale_s, rot_s, transform_s};
use crate::math::ray::Ray;
use crate::math::color::Color;
use crate::math::hit::HitResult;
use crate::scene::TestScene;
use crate::rng::wyrand::gen_wyrand;
use nanorand::rand::WyRand;

/// Distance from the camera to its far plane, in fixed-point world units.
pub const PLANE_DIST: i64 = 327680000;

/// The far plane's extent on its shorter axis.
pub const PLANE_MIN: i64 = 163840000;

/// The fixed bounce budget of a rendered sample.
pub const REFLECTIONS: u8 = 5;

/// A pinhole camera at a rigid placement; `blur_pos` optionally carries a
/// second placement for motion-blur experiments (unused by the renderer
/// here, kept as scene state).
pub struct Camera {
    pub pos: Pos,
    pub blur_pos: Option<Pos>,
}

/// Acceptable frame dimensions: positive, bounded, and of bounded aspect
/// ratio, so the far-plane arithmetic stays within vector bounds.
pub open spec fn dims_ok(width: int, height: int) -> bool {
    0 < width <= 4096 && 0 < height <= 4096 && width <= 6 * height && height <= 6 * width
}

/// The far plane of a placement: its top-left corner and its right and
/// down spanning vectors, scaled so the longer image axis covers
/// proportionally more world space.
pub open spec fn far_plane_s(pos: Pos, width: int, height: int) -> (Vec3, Vec3, Vec3) {
    let cam_right = rot_s(pos.rotation, Vec3 { x: ONE as i64, y: 0, z: 0 });
    let cam_down = rot_s(pos.rotation, Vec3 { x: 0, y: -ONE as i64, z: 0 });
    let plane_width = if width > height {
        (PLANE_MIN as int) * width / height
    } else {
        PLANE_MIN as int
    };
    let plane_height = if width > height {
        PLANE_MIN as int
    } else {
        (PLANE_MIN as int) * height / width
    };
    let fp_right = scale_s(cam_right, plane_width);
    let fp_down = scale_s(cam_down, plane_height);
    let fp_topleft = sub_s(
        transform_s(pos, Vec3 { x: 0, y: 0, z: (-PLANE_DIST) as i64 }),
        scale_s(add_s(fp_right, fp_down), crate::math::fixed::HALF as int),
    );
    (fp_topleft, fp_right, fp_down)
}

/// The ray for pixel `(x, y)` with sub-pixel jitter `(jx, jy)`: from the
/// camera origin toward the far plane point at fraction `(x + jx)/width`
/// across and `(y + jy)/height` down.
pub open spec fn camera_ray_s(
    pos: Pos,
    width: int,
    height: int,
    x: int,
    y: int,
    jx: int,
    jy: int,
) -> Ray {
    let (fp_topleft, fp_right, fp_down) = far_plane_s(pos, width, height);
    let xr = (x * (ONE as int) + jx) / width;
    let yr = (y * (ONE as int) + jy) / height;
    Ray {
        pos: pos.translation,
        dir: add_s(add_s(fp_topleft, scale_s(fp_right, xr)), scale_s(fp_down, yr)),
    }
}

/// The ray at flat index `k` (row-major) is a camera ray for its pixel,
/// with some jitter pair in `[0, 1)`.
pub open spec fn is_camera_ray(pos: Pos, width: int, height: int, k: int, ray: Ray) -> bool {
    exists|jx: int, jy: int|
        0 <= jx < ONE && 0 <= jy < ONE && ray == #[trigger] camera_ray_s(
            pos,
            width,
            height,
            k % width,
            k / width,
            jx,
            jy,
        )
}

/// A numerator at most six times the denominator divides to at most six.
proof fn lemma_scaled_ratio(long: int, short: int)
    requires
        0 < short,
        0 < long <= 6 * short,
    ensures
        0 <= (PLANE_MIN as int) * long / short <= 6 * PLANE_MIN,
{
    assert(0 <= (PLANE_MIN as int) * long / short <= 6 * PLANE_MIN) by (nonlinear_arith)
        requires
            0 < short,
            0 < long <= 6 * short,
        ;
}

/// Division by a positive denominator does not grow a non-negative
/// numerator.
proof fn lemma_div_le(n: int, d: int)
    requires
        0 <= n,
        0 < d,
    ensures
        0 <= n / d <= n,
{
    assert(0 <= n / d <= n) by (nonlinear_arith)
        requires
            0 <= n,
            0 < d,
        ;
}

impl Camera {
    /// The far plane of `pos` for a `width` by `height` image.
    pub fn calculate_far_plane(pos: Pos, width: usize, height: usize) -> (r: (Vec3, Vec3, Vec3))
        requires
            pos.wf(),
            dims_ok(width as int, height as int),
        ensures
            r == far_plane_s(pos, width as int, height as int),
            r.0.wf() && r.1.wf() && r.2.wf(),
    {
        let cam_right: Vec3 = Vec3::new(ONE, 0, 0).rotated_by(&pos.rotation);
        let cam_down: Vec3 = Vec3::new(0, -ONE, 0).rotated_by(&pos.rotation);
        let plane_width: i64;
        let plane_height: i64;
        if width > height {
            proof {
                lemma_scaled_ratio(width as int, height as int);
            }
            plane_width = ((PLANE_MIN as u64) * (width as u64) / (height as u64)) as i64;
            plane_height = PLANE_MIN;
        } else {
            proof {
                lemma_scaled_ratio(height as int, width as int);
            }
            plane_width = PLANE_MIN;
            plane_height = ((PLANE_MIN as u64) * (height as u64) / (width as u64)) as i64;
        }
        let fp_right: Vec3 = cam_right.scale(plane_width);
        let fp_down: Vec3 = cam_down.scale(plane_height);
        let fp_topleft: Vec3 = pos.transform(Vec3::new(0, 0, -PLANE_DIST)).sub(
            fp_right.add(fp_down).scale(crate::math::fixed::HALF),
        );
        (fp_topleft, fp_right, fp_down)
    }

    /// One jittered ray per pixel, in row-major order.
    pub fn rays(pos: Pos, width: usize, height: usize, rng: &mut WyRand) -> (r: Vec<Ray>)
        requires
            pos.wf(),
            dims_ok(width as int, height as int),
        ensures
            r@.len() == width * height,
            forall|k: int|
                0 <= k < r@.len() ==> is_camera_ray(
                    pos,
                    width as int,
                    height as int,
                    k,
                    #[trigger] r@[k],
                ) && r@[k].wf(),
    {
        let (fp_topleft, fp_right, fp_down) = Self::calculate_far_plane(pos, width, height);
        let origin = pos.translation;
        let mut rays: Vec<Ray> = Vec::new();
        let mut y: usize = 0;
        while y < height
            invariant
                pos.wf(),
                dims_ok(width as int, height as int),
                y <= height,
                (fp_topleft, fp_right, fp_down) == far_plane_s(pos, width as int, height as int),
                origin == pos.translation,
                rays@.len() == y * width,
                forall|k: int|
                    0 <= k < rays@.len() ==> is_camera_ray(
                        pos,
                        width as int,
                        height as int,
                        k,
                        #[trigger] rays@[k],
                    ) && rays@[k].wf(),
            decreases height - y,
        {
            let mut x: usize = 0;
            while x < width
                invariant
                    pos.wf(),
                    dims_ok(width as int, height as int),
                    y < height,
                    x <= width,
                    (fp_topleft, fp_right, fp_down) == far_plane_s(
                        pos,
                        width as int,
                        height as int,
                    ),
                    origin == pos.translation,
                    rays@.len() == y * width + x,
                    forall|k: int|
                        0 <= k < rays@.len() ==> is_camera_ray(
                            pos,
                            width as int,
                            height as int,
                            k,
                            #[trigger] rays@[k],
                        ) && rays@[k].wf(),
                decreases width - x,
            {
                let jx = gen_wyrand(rng);
                let jy = gen_wyrand(rng);
                proof {
                    lemma_div_le(x * 65536 + jx, width as int);
                    lemma_div_le(y * 65536 + jy, height as int);
                }
                let xr: i64 = (((x as u64) * 65536 + (jx as u64)) / (width as u64)) as i64;
                let yr: i64 = (((y as u64) * 65536 + (jy as u64)) / (height as u64)) as i64;
                let direction: Vec3 = fp_topleft.add(fp_right.scale(xr)).add(fp_down.scale(yr));
                let ray = Ray::new(origin, direction);
                rays.push(ray);
                proof {
                    let k = rays@.len() - 1;
                    vstd::arithmetic::div_mod::lemma_fundamental_div_mod_converse(
                        k,
                        width as int,
                        y as int,
                        x as int,
                    );
                    assert(ray == camera_ray_s(
                        pos,
                        width as int,
                        height as int,
                        x as int,
                        y as int,
                        jx as int,
                        jy as int,
                    ));
                    assert(is_camera_ray(pos, width as int, height as int, k, ray));
                }
                x = x + 1;
            }
            proof {
                assert((y + 1) * width == y * width + width) by (nonlinear_arith);
            }
            y = y + 1;
        }
        proof {
            assert(height * width == width * height) by (nonlinear_arith);
        }
        rays
    }

    /// Render one full frame: per pixel, one traced sample's color, the
    /// hit albedo, and the hit normal (black and zero where nothing was
    /// hit).
    pub fn render_combined(
        &self,
        scene: &TestScene,
        width: usize,
        height: usize,
        rng: &mut WyRand,
    ) -> (r: Vec<(Color, Color, Vec3)>)
        requires
            self.pos.wf(),
            scene.wf_s(),
            dims_ok(width as int, height as int),
        ensures
            r@.len() == width * height,
    {
        let all = Self::rays(self.pos, width, height, rng);
        let mut out: Vec<(Color, Color, Vec3)> = Vec::new();
        let mut i: usize = 0;
        while i < all.len()
            invariant
                scene.wf_s(),
                out@.len() == i,
                i <= all@.len(),
                forall|k: int| 0 <= k < all@.len() ==> (#[trigger] all@[k]).wf(),
            decreases all@.len() - i,
        {
            let ray = all[i];
            let traced = scene.ray_trace(&ray, rng);
            let color = HitResult::get_color(traced, scene, REFLECTIONS, rng);
            let albedo = match &traced {
                Some(h) => h.material.albedo(*h),
                None => Color::default(),
            };
            let normal = match &traced {
                Some(h) => h.normal,
                None => Vec3 { x: 0, y: 0, z: 0 },
            };
            out.push((color, albedo, normal));
            i = i + 1;
        }
        out
    }

    pub fn separate_color(combined: &Vec<(Color, Color, Vec3)>) -> (r: Vec<Color>)
        ensures
            r@.len() == combined@.len(),
            forall|k: int| 0 <= k < r@.len() ==> r@[k] == (#[trigger] combined@[k]).0,
    {
        let mut out: Vec<Color> = Vec::new();
        let mut i: usize = 0;
        while i < combined.len()
            invariant
                out@.len() == i,
                i <= combined@.len(),
                forall|k: int| 0 <= k < i ==> out@[k] == (#[trigger] combined@[k]).0,
            decreases combined@.len() - i,
        {
            out.push(combined[i].0);
            i = i + 1;
        }
        out
    }

    pub fn separate_albedo(combined: &Vec<(Color, Color, Vec3)>) -> (r: Vec<Color>)
        ensures
            r@.len() == combined@.len(),
            forall|k: int| 0 <= k < r@.len() ==> r@[k] == (#[trigger] combined@[k]).1,
    {
        let mut out: Vec<Color> = Vec::new();
        let mut i: usize = 0;
        while i < combined.len()
            invariant
                out@.len() == i,
                i <= combined@.len(),
                forall|k: int| 0 <= k < i ==> out@[k] == (#[trigger] combined@[k]).1,
            decreases combined@.len() - i,
        {
            out.push(combined[i].1);
            i = i + 1;
        }
        out
    }

    pub fn separate_normals(combined: &Vec<(Color, Color, Vec3)>) -> (r: Vec<Vec3>)
        ensures
            r@.len() == combined@.len(),
            forall|k: int| 0 <= k < r@.len() ==> r@[k] == (#[trigger] combined@[k]).2,
    {
        let mut out: Vec<Vec3> = Vec::new();
        let mut i: usize = 0;
        while i < combined.len()
            invariant
                out@.len() == i,
                i <= combined@.len(),
                forall|k: int| 0 <= k < i ==> out@[k] == (#[trigger] combined@[k]).2,
            decreases combined@.len() - i,
        {
            out.push(combined[i].2);
            i = i + 1;
        }
        out
    }

    pub fn render_color(
        &self,
        scene: &TestScene,
        width: usize,
        height: usize,
        rng: &mut WyRand,
    ) -> (r: Vec<Color>)
        requires
            self.pos.wf(),
            scene.wf_s(),
            dims_ok(width as int, height as int),
        ensures
            r@.len() == width * height,
    {
        Camera::separate_color(&self.render_combined(scene, width, height, rng))
    }

    pub fn render_albedo(
        &self,
        scene: &TestScene,
        width: usize,
        height: usize,
        rng: &mut WyRand,
    ) -> (r: Vec<Color>)
        requires
            self.pos.wf(),
            scene.wf_s(),
            dims_ok(width as int, height as int),
        ensures
            r@.len() == width * height,
    {
        Camera::separate_albedo(&self.render_combined(scene, width, height, rng))
    }

    pub fn render_normals(
        &self,
        scene: &TestScene,
        width: usize,
        height: usize,
        rng: &mut WyRand,
    ) -> (r: Vec<Vec3>)
        requires
            self.pos.wf(),
            scene.wf_s(),
            dims_ok(width as int, height as int),
        ensures
            r@.len() == width * height,
    {
        Camera::separate_normals(&self.render_combined(scene, width, height, rng))
    }
}

} // verus!
