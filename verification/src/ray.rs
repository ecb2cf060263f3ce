//! Rays: an origin and a direction.

use vstd::prelude::*;
use crate::vec::Vec3;

verus! {

/// A half-line through space, parametrized as `origin + dir * t`.
#[derive(Clone, Copy, PartialEq, Eq, Structural, Debug)]
pub struct Ray {
    pub origin: Vec3,
    pub dir: Vec3,
}

impl Ray {
    /// The point the ray reaches at parameter `t`.
    pub open spec fn at_spec(self, t: i64) -> Vec3 {
        self.origin.add_spec(self.dir.scale_spec(t))
    }

    pub fn new(origin: Vec3, dir: Vec3) -> (r: Ray)
        ensures
            r.origin == origin && r.dir == dir,
    {
        Ray { origin, dir }
    }

    pub fn at(&self, t: i64) -> (r: Vec3)
        ensures
            r == self.at_spec(t),
    {
        self.origin.add(self.dir.scale(t))
    }
}

} // verus!
