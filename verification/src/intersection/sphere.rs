//! Spheres and their ray intersection.

use vstd::prelude::*;
use crate::fixed::{
    fx_add, fx_add_spec, fx_div, fx_div_spec, fx_mul, fx_mul_spec, fx_neg, fx_neg_spec, fx_sqrt,
    fx_sqrt_spec, fx_sub, fx_sub_spec,
};
use crate::intersection::hitinfo::HitInfo;
use crate::intersection::Hittable;
use crate::material::Material;
use crate::ray::Ray;
use crate::vec::Vec3;

verus! {

/// A sphere given by center and radius, carrying its material.
#[derive(Clone, Copy, PartialEq, Eq, Structural, Debug)]
pub struct Sphere {
    pub radius: i64,
    pub center: Vec3,
    pub material: Material,
}

impl Sphere {
    /// The outward unit normal at a surface point: the offset from the
    /// center, normalized. The offset of a degenerate micro-sphere is too
    /// short to normalize and is used as it stands.
    pub open spec fn outward_normal_spec(self, p: Vec3) -> Vec3 {
        let off = p.sub_spec(self.center);
        if off.norm_sq_spec() >= 1 {
            off.normalized_spec()
        } else {
            off
        }
    }
}

impl Hittable for Sphere {
    /// Solving `|O + t D - C|^2 = r^2`: a negative discriminant misses;
    /// otherwise the nearer root is taken, then the farther, whichever
    /// first lies within `[t_min, t_max]`. A ray whose direction is too
    /// short for its squared norm to register strikes nothing.
    open spec fn hit_spec(&self, ray: Ray, t_min: i64, t_max: i64) -> Option<HitInfo> {
        let oc = ray.origin.sub_spec(self.center);
        let a = ray.dir.norm_sq_spec();
        let half_b = Vec3::dot_spec(oc, ray.dir);
        let c = fx_sub_spec(oc.norm_sq_spec(), fx_mul_spec(self.radius, self.radius));
        let discr = fx_sub_spec(fx_mul_spec(half_b, half_b), fx_mul_spec(a, c));
        if a == 0 || discr < 0 {
            None
        } else {
            let sqrtd = fx_sqrt_spec(discr);
            let root1 = fx_div_spec(fx_sub_spec(fx_neg_spec(half_b), sqrtd), a);
            let root2 = fx_div_spec(fx_add_spec(fx_neg_spec(half_b), sqrtd), a);
            if t_min <= root1 && root1 <= t_max {
                Some(
                    HitInfo::new_spec(
                        root1,
                        ray,
                        self.outward_normal_spec(ray.at_spec(root1)),
                        self.material,
                        0,
                        0,
                    ),
                )
            } else if t_min <= root2 && root2 <= t_max {
                Some(
                    HitInfo::new_spec(
                        root2,
                        ray,
                        self.outward_normal_spec(ray.at_spec(root2)),
                        self.material,
                        0,
                        0,
                    ),
                )
            } else {
                None
            }
        }
    }

    fn intersect(&self, ray: &Ray, t_min: i64, t_max: i64) -> (r: Option<HitInfo>) {
        let oc: Vec3 = ray.origin.sub(self.center);
        let a: i64 = ray.dir.norm_sqared();
        let half_b: i64 = Vec3::dot(&oc, &ray.dir);
        let c: i64 = fx_sub(oc.norm_sqared(), fx_mul(self.radius, self.radius));
        let discr: i64 = fx_sub(fx_mul(half_b, half_b), fx_mul(a, c));
        if a == 0 || discr < 0 {
            return None;
        }
        let sqrtd: i64 = fx_sqrt(discr);
        let root1: i64 = fx_div(fx_sub(fx_neg(half_b), sqrtd), a);
        let root2: i64 = fx_div(fx_add(fx_neg(half_b), sqrtd), a);
        if t_min <= root1 && root1 <= t_max {
            let n: Vec3 = self.outward_normal(ray.at(root1));
            Some(HitInfo::new(root1, ray, n, self.material, 0, 0))
        } else if t_min <= root2 && root2 <= t_max {
            let n: Vec3 = self.outward_normal(ray.at(root2));
            Some(HitInfo::new(root2, ray, n, self.material, 0, 0))
        } else {
            None
        }
    }
}

impl Sphere {
    fn outward_normal(&self, p: Vec3) -> (n: Vec3)
        ensures
            n == self.outward_normal_spec(p),
    {
        let off: Vec3 = p.sub(self.center);
        let q: i64 = off.norm_sqared();
        if q >= 1 {
            off.normalized()
        } else {
            off
        }
    }
}

} // verus!
