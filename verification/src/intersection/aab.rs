//! Axis-aligned boxes and their ray intersection by the slab method.

use vstd::prelude::*;
use crate::fixed::{fx_div, fx_div_spec, fx_sub, fx_sub_spec, SCALE};
use crate::intersection::hitinfo::HitInfo;
use crate::intersection::Hittable;
use crate::material::Material;
use crate::ray::Ray;
use crate::vec::Vec3;

verus! {

/// A box spanning `[min, max]` on each axis, carrying its material.
#[derive(Clone, Copy, PartialEq, Eq, Structural, Debug)]
pub struct AxisAlignedBox {
    pub min: Vec3,
    pub max: Vec3,
    pub material: Material,
}

/// Entry and exit distances of a ray against one axis slab, and whether
/// entry is through the low face. A ray parallel to the slab yields the
/// full range when its origin lies between the planes and the empty one
/// otherwise, standing in for the infinities of the division.
pub open spec fn slab_spec(minc: i64, maxc: i64, o: i64, d: i64) -> (i64, i64, bool) {
    if d == 0 {
        if o < minc || o > maxc {
            (i64::MAX, i64::MIN, true)
        } else {
            (i64::MIN, i64::MAX, true)
        }
    } else {
        let ta = fx_div_spec(fx_sub_spec(minc, o), d);
        let tb = fx_div_spec(fx_sub_spec(maxc, o), d);
        if tb < ta {
            (tb, ta, false)
        } else {
            (ta, tb, true)
        }
    }
}

fn slab(minc: i64, maxc: i64, o: i64, d: i64) -> (r: (i64, i64, bool))
    ensures
        r == slab_spec(minc, maxc, o, d),
{
    if d == 0 {
        if o < minc || o > maxc {
            (i64::MAX, i64::MIN, true)
        } else {
            (i64::MIN, i64::MAX, true)
        }
    } else {
        let ta: i64 = fx_div(fx_sub(minc, o), d);
        let tb: i64 = fx_div(fx_sub(maxc, o), d);
        if tb < ta {
            (tb, ta, false)
        } else {
            (ta, tb, true)
        }
    }
}

impl AxisAlignedBox {
    /// The folded slab ranges over the three axes: the running entry
    /// distance (never behind the origin), the running exit distance, and
    /// the outward normal of the face giving the tightest entry.
    pub open spec fn fold_spec(self, ray: Ray) -> (i64, i64, Vec3) {
        let sx = slab_spec(self.min.x, self.max.x, ray.origin.x, ray.dir.x);
        let sy = slab_spec(self.min.y, self.max.y, ray.origin.y, ray.dir.y);
        let sz = slab_spec(self.min.z, self.max.z, ray.origin.z, ray.dir.z);
        let t1 = if sx.0 > 0 {
            sx.0
        } else {
            0
        };
        let n1 = if sx.0 > 0 {
            if sx.2 {
                Vec3 { x: (-SCALE) as i64, y: 0, z: 0 }
            } else {
                Vec3 { x: SCALE, y: 0, z: 0 }
            }
        } else {
            Vec3 { x: SCALE, y: 0, z: 0 }
        };
        let t2 = if sy.0 > t1 {
            sy.0
        } else {
            t1
        };
        let n2 = if sy.0 > t1 {
            if sy.2 {
                Vec3 { x: 0, y: (-SCALE) as i64, z: 0 }
            } else {
                Vec3 { x: 0, y: SCALE, z: 0 }
            }
        } else {
            n1
        };
        let t3 = if sz.0 > t2 {
            sz.0
        } else {
            t2
        };
        let n3 = if sz.0 > t2 {
            if sz.2 {
                Vec3 { x: 0, y: 0, z: (-SCALE) as i64 }
            } else {
                Vec3 { x: 0, y: 0, z: SCALE }
            }
        } else {
            n2
        };
        let o2 = if sy.1 < sx.1 {
            sy.1
        } else {
            sx.1
        };
        let o3 = if sz.1 < o2 {
            sz.1
        } else {
            o2
        };
        (t3, o3, n3)
    }
}

impl Hittable for AxisAlignedBox {
    /// The slab method: the entry distance is the largest per-axis entry,
    /// the exit the smallest per-axis exit; the ray misses when entry runs
    /// past exit or the box lies behind the origin, and strikes the face
    /// whose slab gave the tightest entry otherwise.
    open spec fn hit_spec(&self, ray: Ray, t_min: i64, t_max: i64) -> Option<HitInfo> {
        let f = self.fold_spec(ray);
        if f.0 > f.1 || f.1 < 0 {
            None
        } else if f.0 < t_min || t_max < f.0 {
            None
        } else {
            Some(HitInfo::new_spec(f.0, ray, f.2, self.material, 0, 0))
        }
    }

    fn intersect(&self, ray: &Ray, t_min: i64, t_max: i64) -> (r: Option<HitInfo>) {
        let sx: (i64, i64, bool) = slab(self.min.x, self.max.x, ray.origin.x, ray.dir.x);
        let sy: (i64, i64, bool) = slab(self.min.y, self.max.y, ray.origin.y, ray.dir.y);
        let sz: (i64, i64, bool) = slab(self.min.z, self.max.z, ray.origin.z, ray.dir.z);
        let mut t_in: i64 = 0;
        let mut normal: Vec3 = Vec3 { x: SCALE, y: 0, z: 0 };
        if sx.0 > 0 {
            t_in = sx.0;
            normal = if sx.2 {
                Vec3 { x: -SCALE, y: 0, z: 0 }
            } else {
                Vec3 { x: SCALE, y: 0, z: 0 }
            };
        }
        if sy.0 > t_in {
            t_in = sy.0;
            normal = if sy.2 {
                Vec3 { x: 0, y: -SCALE, z: 0 }
            } else {
                Vec3 { x: 0, y: SCALE, z: 0 }
            };
        }
        if sz.0 > t_in {
            t_in = sz.0;
            normal = if sz.2 {
                Vec3 { x: 0, y: 0, z: -SCALE }
            } else {
                Vec3 { x: 0, y: 0, z: SCALE }
            };
        }
        let mut t_out: i64 = sx.1;
        if sy.1 < t_out {
            t_out = sy.1;
        }
        if sz.1 < t_out {
            t_out = sz.1;
        }
        if t_in > t_out || t_out < 0 {
            return None;
        }
        if t_in < t_min || t_max < t_in {
            return None;
        }
        Some(HitInfo::new(t_in, ray, normal, self.material, 0, 0))
    }
}

} // verus!
