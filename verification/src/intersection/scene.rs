//! The scene: an ordered list of primitives and a background.

use vstd::prelude::*;
use crate::color::Color;
use crate::intersection::aab::AxisAlignedBox;
use crate::intersection::hitinfo::HitInfo;
use crate::intersection::sphere::Sphere;
use crate::intersection::Hittable;
use crate::ray::Ray;

verus! {

/// Any of the shapes a scene can hold.
#[derive(Clone, Copy, PartialEq, Eq, Structural, Debug)]
pub enum Primitive {
    Sphere(Sphere),
    Cuboid(AxisAlignedBox),
}

/// What a ray that strikes nothing is worth: a fixed color, or the sky
/// gradient of its direction.
#[derive(Clone, Copy, PartialEq, Eq, Structural, Debug)]
pub enum Background {
    Solid { color: Color },
    Sky,
}

/// An ordered collection of primitives; order matters only as the
/// tie-break when two hits are equally close, where the earlier primitive
/// wins. Read-only during tracing.
pub struct Scene {
    pub primitives: Vec<Primitive>,
    pub background: Background,
}

impl Hittable for Primitive {
    open spec fn hit_spec(&self, ray: Ray, t_min: i64, t_max: i64) -> Option<HitInfo> {
        match *self {
            Primitive::Sphere(s) => s.hit_spec(ray, t_min, t_max),
            Primitive::Cuboid(b) => b.hit_spec(ray, t_min, t_max),
        }
    }

    fn intersect(&self, ray: &Ray, t_min: i64, t_max: i64) -> (r: Option<HitInfo>) {
        match self {
            Primitive::Sphere(s) => s.intersect(ray, t_min, t_max),
            Primitive::Cuboid(b) => b.intersect(ray, t_min, t_max),
        }
    }
}

/// Of two optional hits, the closer one; the first wins a tie.
pub open spec fn closer_hit_spec(first: Option<HitInfo>, second: Option<HitInfo>) -> Option<
    HitInfo,
> {
    match first {
        Option::None => second,
        Option::Some(h1) => match second {
            Option::None => Some(h1),
            Option::Some(h2) => if h2.t < h1.t {
                Some(h2)
            } else {
                Some(h1)
            },
        },
    }
}

fn closer_hit(first: Option<HitInfo>, second: Option<HitInfo>) -> (r: Option<HitInfo>)
    ensures
        r == closer_hit_spec(first, second),
{
    match first {
        Option::None => second,
        Option::Some(h1) => match second {
            Option::None => Some(h1),
            Option::Some(h2) => if h2.t < h1.t {
                Some(h2)
            } else {
                Some(h1)
            },
        },
    }
}

/// The closest hit over a list of primitives, the earliest winning ties.
pub open spec fn scene_hit_seq_spec(s: Seq<Primitive>, ray: Ray, t_min: i64, t_max: i64) -> Option<
    HitInfo,
>
    decreases s.len(),
{
    if s.len() == 0 {
        None
    } else {
        closer_hit_spec(
            s[0].hit_spec(ray, t_min, t_max),
            scene_hit_seq_spec(s.subrange(1, s.len() as int), ray, t_min, t_max),
        )
    }
}

impl Scene {
    /// A scene with nothing in it, in front of a black background.
    pub fn empty() -> (r: Scene)
        ensures
            r.primitives@.len() == 0,
            r.background == (Background::Solid { color: Color::black_spec() }),
    {
        Scene { primitives: Vec::new(), background: Background::Solid { color: Color { r: 0, g: 0, b: 0 } } }
    }

    /// The color a ray that misses everything comes back with.
    pub open spec fn background_spec(self, ray: Ray) -> Color {
        match self.background {
            Background::Solid { color } => color,
            Background::Sky => Color::sky_spec(ray),
        }
    }

    pub fn background_color(&self, ray: &Ray) -> (c: Color)
        ensures
            c == self.background_spec(*ray),
    {
        match self.background {
            Background::Solid { color } => color,
            Background::Sky => Color::sky(ray),
        }
    }
}

/// What the closest-hit scan promises: a reported hit is one of the
/// primitives' own hits, no primitive hits strictly closer, and the scan
/// comes back empty exactly when every primitive misses.
#[verifier::rlimit(60)]
pub proof fn lemma_scene_hit_closest(s: Seq<Primitive>, ray: Ray, t_min: i64, t_max: i64)
    ensures
        scene_hit_seq_spec(s, ray, t_min, t_max) is Some ==> exists|i: int|
            0 <= i < s.len() && #[trigger] s[i].hit_spec(ray, t_min, t_max) == Some(
                scene_hit_seq_spec(s, ray, t_min, t_max).unwrap(),
            ),
        forall|i: int|
            0 <= i < s.len() && #[trigger] s[i].hit_spec(ray, t_min, t_max) is Some
                ==> scene_hit_seq_spec(s, ray, t_min, t_max) is Some && scene_hit_seq_spec(
                s,
                ray,
                t_min,
                t_max,
            ).unwrap().t <= s[i].hit_spec(ray, t_min, t_max).unwrap().t,
    decreases s.len(),
{
    if s.len() > 0 {
        let rest = s.subrange(1, s.len() as int);
        lemma_scene_hit_closest(rest, ray, t_min, t_max);
        assert forall|i: int|
            0 <= i < s.len() && #[trigger] s[i].hit_spec(ray, t_min, t_max) is Some implies {
            &&& scene_hit_seq_spec(s, ray, t_min, t_max) is Some
            &&& scene_hit_seq_spec(s, ray, t_min, t_max).unwrap().t <= s[i].hit_spec(
                ray,
                t_min,
                t_max,
            ).unwrap().t
        } by {
            if i > 0 {
                assert(rest[i - 1] == s[i]);
            }
        }
        if scene_hit_seq_spec(s, ray, t_min, t_max) is Some {
            let h = scene_hit_seq_spec(s, ray, t_min, t_max).unwrap();
            if s[0].hit_spec(ray, t_min, t_max) != Some(h) {
                let j = choose|j: int|
                    0 <= j < rest.len() && #[trigger] rest[j].hit_spec(ray, t_min, t_max) == Some(
                        scene_hit_seq_spec(rest, ray, t_min, t_max).unwrap(),
                    );
                assert(s[j + 1].hit_spec(ray, t_min, t_max) == Some(h));
            }
        }
    }
}

/// A hit a sphere reports lies within the queried parameter range.
pub proof fn lemma_sphere_hit_in_range(sp: Sphere, ray: Ray, t_min: i64, t_max: i64)
    ensures
        sp.hit_spec(ray, t_min, t_max) is Some ==> t_min <= sp.hit_spec(
            ray,
            t_min,
            t_max,
        ).unwrap().t <= t_max,
{
}

/// A hit a box reports lies within the queried parameter range.
pub proof fn lemma_box_hit_in_range(b: AxisAlignedBox, ray: Ray, t_min: i64, t_max: i64)
    ensures
        b.hit_spec(ray, t_min, t_max) is Some ==> t_min <= b.hit_spec(
            ray,
            t_min,
            t_max,
        ).unwrap().t <= t_max,
{
}

/// A hit the scene reports lies within the queried parameter range.
pub proof fn lemma_scene_hit_in_range(s: Seq<Primitive>, ray: Ray, t_min: i64, t_max: i64)
    ensures
        scene_hit_seq_spec(s, ray, t_min, t_max) is Some ==> t_min <= scene_hit_seq_spec(
            s,
            ray,
            t_min,
            t_max,
        ).unwrap().t <= t_max,
    decreases s.len(),
{
    if s.len() > 0 {
        lemma_scene_hit_in_range(s.subrange(1, s.len() as int), ray, t_min, t_max);
        match s[0] {
            Primitive::Sphere(sp) => lemma_sphere_hit_in_range(sp, ray, t_min, t_max),
            Primitive::Cuboid(b) => lemma_box_hit_in_range(b, ray, t_min, t_max),
        }
    }
}

/// Unfolds the closest-hit scan by one primitive from the front.
proof fn lemma_scene_hit_step(s: Seq<Primitive>, i: int, ray: Ray, t_min: i64, t_max: i64)
    requires
        0 <= i < s.len(),
    ensures
        scene_hit_seq_spec(s.subrange(i, s.len() as int), ray, t_min, t_max) == closer_hit_spec(
            s[i].hit_spec(ray, t_min, t_max),
            scene_hit_seq_spec(s.subrange(i + 1, s.len() as int), ray, t_min, t_max),
        ),
{
    let tail = s.subrange(i, s.len() as int);
    assert(tail[0] == s[i]);
    assert(tail.subrange(1, tail.len() as int) =~= s.subrange(i + 1, s.len() as int));
}

impl Hittable for Scene {
    open spec fn hit_spec(&self, ray: Ray, t_min: i64, t_max: i64) -> Option<HitInfo> {
        scene_hit_seq_spec(self.primitives@, ray, t_min, t_max)
    }

    /// The linear scan over every primitive: the full list is always
    /// walked, since a later primitive may be closer than an earlier hit.
    #[verifier::rlimit(30)]
    fn intersect(&self, ray: &Ray, t_min: i64, t_max: i64) -> (r: Option<HitInfo>) {
        let n: usize = self.primitives.len();
        let mut best: Option<HitInfo> = None;
        let mut i: usize = n;
        while i > 0
            invariant
                i <= n,
                n == self.primitives@.len(),
                best == scene_hit_seq_spec(
                    self.primitives@.subrange(i as int, n as int),
                    *ray,
                    t_min,
                    t_max,
                ),
            decreases i,
        {
            i = i - 1;
            let h: Option<HitInfo> = self.primitives[i].intersect(ray, t_min, t_max);
            best = closer_hit(h, best);
            proof {
                lemma_scene_hit_step(self.primitives@, i as int, *ray, t_min, t_max);
            }
        }
        proof {
            assert(self.primitives@.subrange(0, n as int) =~= self.primitives@);
        }
        best
    }
}

} // verus!
