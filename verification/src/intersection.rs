//! Geometry: primitives, hit records, and the scene that aggregates them.

use vstd::prelude::*;
use crate::ray::Ray;
use self::hitinfo::HitInfo;

pub mod aab;
pub mod hitinfo;
pub mod scene;
pub mod sphere;

verus! {

/// Anything a ray can strike. A hit is reported only when its parametric
/// distance lies between `t_min` and `t_max`; each implementation pins its
/// result with its own `hit_spec`.
pub trait Hittable {
    /// The hit this shape reports for a ray within the given range.
    spec fn hit_spec(&self, ray: Ray, t_min: i64, t_max: i64) -> Option<HitInfo>;

    fn intersect(&self, ray: &Ray, t_min: i64, t_max: i64) -> (r: Option<HitInfo>)
        ensures
            r == self.hit_spec(*ray, t_min, t_max),
    ;
}

} // verus!
