//! The record a successful intersection produces.

use vstd::prelude::*;
use crate::material::Material;
use crate::ray::Ray;
use crate::vec::Vec3;

verus! {

/// Where and how a ray struck a surface: the distance `t` along the ray,
/// the world point, the unit normal turned against the ray, whether the ray
/// came from outside, the struck material, and the texture coordinates.
#[derive(Clone, Copy, PartialEq, Eq, Structural, Debug)]
pub struct HitInfo {
    pub normal: Vec3,
    pub t: i64,
    pub point: Vec3,
    pub front_face: bool,
    pub material: Material,
    pub u: i64,
    pub v: i64,
}

impl HitInfo {
    /// The record built from a hit distance and the outward surface normal:
    /// `front_face` holds when the ray runs against the outward normal, and
    /// the stored normal is flipped to face the ray.
    pub open spec fn new_spec(
        t: i64,
        hit_ray: Ray,
        outward_normal: Vec3,
        material: Material,
        u: i64,
        v: i64,
    ) -> HitInfo {
        let ff = Vec3::dot_spec(hit_ray.dir, outward_normal) < 0;
        HitInfo {
            normal: if ff {
                outward_normal
            } else {
                outward_normal.neg_spec()
            },
            t: t,
            point: hit_ray.at_spec(t),
            front_face: ff,
            material: material,
            u: u,
            v: v,
        }
    }

    pub fn new(
        t: i64,
        hit_ray: &Ray,
        outward_normal: Vec3,
        material: Material,
        u: i64,
        v: i64,
    ) -> (r: HitInfo)
        ensures
            r == HitInfo::new_spec(t, *hit_ray, outward_normal, material, u, v),
    {
        let mut hit = HitInfo {
            front_face: false,
            point: hit_ray.at(t),
            t: t,
            normal: outward_normal,
            material: material,
            u: u,
            v: v,
        };
        hit.set_face_normal(hit_ray, outward_normal);
        hit
    }

    fn set_face_normal(&mut self, ray: &Ray, outward_normal: Vec3)
        ensures
            final(self).front_face == (Vec3::dot_spec(ray.dir, outward_normal) < 0),
            final(self).normal == if final(self).front_face {
                outward_normal
            } else {
                outward_normal.neg_spec()
            },
            final(self).t == old(self).t,
            final(self).point == old(self).point,
            final(self).material == old(self).material,
            final(self).u == old(self).u,
            final(self).v == old(self).v,
    {
        self.front_face = Vec3::dot(&ray.dir, &outward_normal) < 0;
        self.normal = if self.front_face {
            outward_normal
        } else {
            outward_normal.neg()
        };
    }
}

} // verus!
