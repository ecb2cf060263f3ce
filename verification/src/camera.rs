//! The camera: from normalized image-plane coordinates to world rays.

use vstd::prelude::*;
use crate::fixed::{fx_add, fx_add_spec, fx_div, fx_div_spec, fx_mul, fx_mul_spec, SCALE};
use crate::prng::Prng;
use crate::ray::Ray;
use crate::vec::Vec3;

verus! {

/// Two whole units in fixed point, the divisor of the halvings below.
pub const TWO_FX: i64 = 131072;

/// Immutable derived view geometry: an orthonormal-by-construction basis
/// and the viewport corners, computed once before rendering begins.
#[derive(Clone, Copy, PartialEq, Eq, Structural, Debug)]
pub struct Camera {
    pub origin: Vec3,
    pub vfov_tan_half: i64,
    pub focal_length: i64,
    pub aperture: i64,
    pub aspect_ratio: i64,
    pub horizontal: Vec3,
    pub vertical: Vec3,
    pub lower_left_corner: Vec3,
    pub u: Vec3,
    pub v: Vec3,
}

impl Camera {
    /// The eye must stand apart from the target, and the up vector must
    /// not be parallel to the view direction, or no basis can be derived.
    pub open spec fn basis_wf_spec(lookfrom: Vec3, lookat: Vec3, vup: Vec3) -> bool {
        lookfrom.sub_spec(lookat).norm_sq_spec() >= 1 && Vec3::cross_spec(
            vup,
            lookfrom.sub_spec(lookat).normalized_spec(),
        ).norm_sq_spec() >= 1
    }

    /// The camera derived from eye, target, up vector, the tangent of half
    /// the vertical field of view, focal length, lens aperture, and aspect
    /// ratio.
    pub open spec fn new_spec(
        lookfrom: Vec3,
        lookat: Vec3,
        vup: Vec3,
        vfov_tan_half: i64,
        focal_length: i64,
        aperture: i64,
        aspect_ratio: i64,
    ) -> Camera
        recommends
            Camera::basis_wf_spec(lookfrom, lookat, vup),
    {
        let viewport_height = fx_add_spec(vfov_tan_half, vfov_tan_half);
        let viewport_width = fx_mul_spec(aspect_ratio, viewport_height);
        let w = lookfrom.sub_spec(lookat).normalized_spec();
        let u = Vec3::cross_spec(vup, w).normalized_spec();
        let v = Vec3::cross_spec(w, u);
        let horizontal = u.scale_spec(fx_mul_spec(focal_length, viewport_width));
        let vertical = v.scale_spec(fx_mul_spec(focal_length, viewport_height));
        let lower_left_corner = lookfrom.sub_spec(horizontal.div_spec(TWO_FX)).sub_spec(
            vertical.div_spec(TWO_FX),
        ).sub_spec(w.scale_spec(focal_length));
        Camera {
            origin: lookfrom,
            vfov_tan_half: vfov_tan_half,
            focal_length: focal_length,
            aperture: aperture,
            aspect_ratio: aspect_ratio,
            horizontal: horizontal,
            vertical: vertical,
            lower_left_corner: lower_left_corner,
            u: u,
            v: v,
        }
    }

    pub fn new(
        lookfrom: Vec3,
        lookat: Vec3,
        vup: Vec3,
        vfov_tan_half: i64,
        focal_length: i64,
        aperture: i64,
        aspect_ratio: i64,
    ) -> (c: Camera)
        requires
            Camera::basis_wf_spec(lookfrom, lookat, vup),
        ensures
            c == Camera::new_spec(
                lookfrom,
                lookat,
                vup,
                vfov_tan_half,
                focal_length,
                aperture,
                aspect_ratio,
            ),
    {
        let viewport_height: i64 = fx_add(vfov_tan_half, vfov_tan_half);
        let viewport_width: i64 = fx_mul(aspect_ratio, viewport_height);
        let w: Vec3 = lookfrom.sub(lookat).normalized();
        let u: Vec3 = Vec3::cross(&vup, &w).normalized();
        let v: Vec3 = Vec3::cross(&w, &u);
        let horizontal: Vec3 = u.scale(fx_mul(focal_length, viewport_width));
        let vertical: Vec3 = v.scale(fx_mul(focal_length, viewport_height));
        let lower_left_corner: Vec3 = lookfrom.sub(horizontal.div(TWO_FX)).sub(
            vertical.div(TWO_FX),
        ).sub(w.scale(focal_length));
        Camera {
            origin: lookfrom,
            vfov_tan_half,
            focal_length,
            aperture,
            aspect_ratio,
            horizontal,
            vertical,
            lower_left_corner,
            u,
            v,
        }
    }

    /// The ray for image-plane position `(s, t)` in `[0, 1]^2`: its origin
    /// is jittered across the lens disk for depth of field, and it aims at
    /// the matching point of the focal viewport. A zero aperture is a
    /// pinhole.
    pub open spec fn generate_ray_spec(self, s: i64, t: i64, state: u64) -> (Ray, u64) {
        let (rd0, s1) = Vec3::disk_spec(state, 8);
        let rd = rd0.scale_spec(fx_div_spec(self.aperture, TWO_FX));
        let offset = self.u.scale_spec(rd.x).add_spec(self.v.scale_spec(rd.y));
        let dir = self.lower_left_corner.add_spec(self.horizontal.scale_spec(s)).add_spec(
            self.vertical.scale_spec(t),
        ).sub_spec(self.origin).sub_spec(offset);
        (Ray { origin: self.origin.add_spec(offset), dir: dir }, s1)
    }

    pub fn generate_ray(&self, s: i64, t: i64, rng: &mut Prng) -> (r: Ray)
        ensures
            (r, final(rng).state) == self.generate_ray_spec(s, t, old(rng).state),
    {
        let rd0: Vec3 = Vec3::random_in_unit_disk(rng);
        let rd: Vec3 = rd0.scale(fx_div(self.aperture, TWO_FX));
        let offset: Vec3 = self.u.scale(rd.x).add(self.v.scale(rd.y));
        let dir: Vec3 = self.lower_left_corner.add(self.horizontal.scale(s)).add(
            self.vertical.scale(t),
        ).sub(self.origin).sub(offset);
        Ray { origin: self.origin.add(offset), dir: dir }
    }
}

} // verus!
