//! Three-component vectors over fixed-point scalars.

use vstd::prelude::*;
use crate::fixed::{
    fx_add, fx_add_spec, fx_div, fx_div_spec, fx_mul, fx_mul_spec, fx_neg, fx_neg_spec, fx_sqrt,
    fx_sqrt_spec, fx_sub, fx_sub_spec, sqrt_floor, tdiv, SCALE,
};
use crate::prng::{draw_spec, Prng};

verus! {

/// A point or direction in space; also an RGB triple before tone mapping.
#[derive(Clone, Copy, PartialEq, Eq, Structural, Debug)]
pub struct Vec3 {
    pub x: i64,
    pub y: i64,
    pub z: i64,
}

impl Vec3 {
    /// The componentwise sum.
    pub open spec fn add_spec(self, o: Vec3) -> Vec3 {
        Vec3 { x: fx_add_spec(self.x, o.x), y: fx_add_spec(self.y, o.y), z: fx_add_spec(self.z, o.z) }
    }

    /// The componentwise difference.
    pub open spec fn sub_spec(self, o: Vec3) -> Vec3 {
        Vec3 { x: fx_sub_spec(self.x, o.x), y: fx_sub_spec(self.y, o.y), z: fx_sub_spec(self.z, o.z) }
    }

    /// The componentwise product.
    pub open spec fn mul_spec(self, o: Vec3) -> Vec3 {
        Vec3 { x: fx_mul_spec(self.x, o.x), y: fx_mul_spec(self.y, o.y), z: fx_mul_spec(self.z, o.z) }
    }

    /// The product with a scalar.
    pub open spec fn scale_spec(self, s: i64) -> Vec3 {
        Vec3 { x: fx_mul_spec(self.x, s), y: fx_mul_spec(self.y, s), z: fx_mul_spec(self.z, s) }
    }

    /// The quotient by a scalar.
    pub open spec fn div_spec(self, s: i64) -> Vec3
        recommends
            s != 0,
    {
        Vec3 { x: fx_div_spec(self.x, s), y: fx_div_spec(self.y, s), z: fx_div_spec(self.z, s) }
    }

    /// The componentwise negation.
    pub open spec fn neg_spec(self) -> Vec3 {
        Vec3 { x: fx_neg_spec(self.x), y: fx_neg_spec(self.y), z: fx_neg_spec(self.z) }
    }

    /// The inner product.
    pub open spec fn dot_spec(a: Vec3, b: Vec3) -> i64 {
        fx_add_spec(
            fx_add_spec(fx_mul_spec(a.x, b.x), fx_mul_spec(a.y, b.y)),
            fx_mul_spec(a.z, b.z),
        )
    }

    /// The squared norm.
    pub open spec fn norm_sq_spec(self) -> i64 {
        Vec3::dot_spec(self, self)
    }

    /// The norm.
    pub open spec fn norm_spec(self) -> i64 {
        fx_sqrt_spec(self.norm_sq_spec())
    }

    /// The vector scaled to unit length.
    pub open spec fn normalized_spec(self) -> Vec3
        recommends
            self.norm_sq_spec() >= 1,
    {
        self.div_spec(self.norm_spec())
    }

    /// Whether every component is below the degeneracy threshold in
    /// magnitude; the threshold is finer than one fixed-point quantum, so it
    /// holds exactly of the zero vector.
    pub open spec fn near_zero_spec(self) -> bool {
        self.x == 0 && self.y == 0 && self.z == 0
    }

    /// The cross product.
    pub open spec fn cross_spec(a: Vec3, b: Vec3) -> Vec3 {
        Vec3 {
            x: fx_sub_spec(fx_mul_spec(a.y, b.z), fx_mul_spec(a.z, b.y)),
            y: fx_sub_spec(fx_mul_spec(a.z, b.x), fx_mul_spec(a.x, b.z)),
            z: fx_sub_spec(fx_mul_spec(a.x, b.y), fx_mul_spec(a.y, b.x)),
        }
    }

    pub fn new(x: i64, y: i64, z: i64) -> (r: Vec3)
        ensures
            r.x == x && r.y == y && r.z == z,
    {
        Vec3 { x, y, z }
    }

    pub fn zero() -> (r: Vec3)
        ensures
            r.x == 0 && r.y == 0 && r.z == 0,
    {
        Vec3 { x: 0, y: 0, z: 0 }
    }

    pub fn add(self, o: Vec3) -> (r: Vec3)
        ensures
            r == self.add_spec(o),
    {
        Vec3 { x: fx_add(self.x, o.x), y: fx_add(self.y, o.y), z: fx_add(self.z, o.z) }
    }

    pub fn sub(self, o: Vec3) -> (r: Vec3)
        ensures
            r == self.sub_spec(o),
    {
        Vec3 { x: fx_sub(self.x, o.x), y: fx_sub(self.y, o.y), z: fx_sub(self.z, o.z) }
    }

    pub fn mul(self, o: Vec3) -> (r: Vec3)
        ensures
            r == self.mul_spec(o),
    {
        Vec3 { x: fx_mul(self.x, o.x), y: fx_mul(self.y, o.y), z: fx_mul(self.z, o.z) }
    }

    pub fn scale(self, s: i64) -> (r: Vec3)
        ensures
            r == self.scale_spec(s),
    {
        Vec3 { x: fx_mul(self.x, s), y: fx_mul(self.y, s), z: fx_mul(self.z, s) }
    }

    pub fn div(self, s: i64) -> (r: Vec3)
        requires
            s != 0,
        ensures
            r == self.div_spec(s),
    {
        Vec3 { x: fx_div(self.x, s), y: fx_div(self.y, s), z: fx_div(self.z, s) }
    }

    pub fn neg(self) -> (r: Vec3)
        ensures
            r == self.neg_spec(),
    {
        Vec3 { x: fx_neg(self.x), y: fx_neg(self.y), z: fx_neg(self.z) }
    }

    pub fn dot(v1: &Vec3, v2: &Vec3) -> (r: i64)
        ensures
            r == Vec3::dot_spec(*v1, *v2),
    {
        fx_add(fx_add(fx_mul(v1.x, v2.x), fx_mul(v1.y, v2.y)), fx_mul(v1.z, v2.z))
    }

    pub fn cross(v1: &Vec3, v2: &Vec3) -> (r: Vec3)
        ensures
            r == Vec3::cross_spec(*v1, *v2),
    {
        Vec3 {
            x: fx_sub(fx_mul(v1.y, v2.z), fx_mul(v1.z, v2.y)),
            y: fx_sub(fx_mul(v1.z, v2.x), fx_mul(v1.x, v2.z)),
            z: fx_sub(fx_mul(v1.x, v2.y), fx_mul(v1.y, v2.x)),
        }
    }

    pub fn norm_sqared(&self) -> (r: i64)
        ensures
            r == self.norm_sq_spec(),
            r >= 0,
    {
        proof {
            lemma_norm_sq_nonneg(*self);
        }
        Vec3::dot(self, self)
    }

    pub fn norm(&self) -> (r: i64)
        ensures
            r == self.norm_spec(),
            r >= 0,
    {
        let q: i64 = self.norm_sqared();
        fx_sqrt(q)
    }

    pub fn normalized(&self) -> (r: Vec3)
        requires
            self.norm_sq_spec() >= 1,
        ensures
            r == self.normalized_spec(),
    {
        proof {
            lemma_norm_pos(*self);
        }
        let n: i64 = self.norm();
        Vec3 { x: fx_div(self.x, n), y: fx_div(self.y, n), z: fx_div(self.z, n) }
    }

    pub fn near_zero(&self) -> (r: bool)
        ensures
            r == self.near_zero_spec(),
    {
        self.x == 0 && self.y == 0 && self.z == 0
    }

    pub fn normalize(&mut self)
        requires
            old(self).norm_sq_spec() >= 1,
        ensures
            *final(self) == old(self).normalized_spec(),
    {
        let r: Vec3 = self.normalized();
        *self = r;
    }

    /// A vector with each component drawn uniformly from `[min, max)`.
    pub open spec fn random_spec(s: u64, min: i64, max: i64) -> (Vec3, u64) {
        let (s1, f1) = draw_spec(s);
        let (s2, f2) = draw_spec(s1);
        let (s3, f3) = draw_spec(s2);
        (
            Vec3 {
                x: sample_range_spec(min, max, f1),
                y: sample_range_spec(min, max, f2),
                z: sample_range_spec(min, max, f3),
            },
            s3,
        )
    }

    pub fn random(rng: &mut Prng, min: i64, max: i64) -> (r: Vec3)
        requires
            min < max,
        ensures
            (r, final(rng).state) == Vec3::random_spec(old(rng).state, min, max),
            max - min <= i64::MAX ==> min <= r.x <= max && min <= r.y <= max && min <= r.z <= max,
    {
        let f1: i64 = rng.next_fraction();
        let f2: i64 = rng.next_fraction();
        let f3: i64 = rng.next_fraction();
        proof {
            lemma_sample_range(min, max, f1);
            lemma_sample_range(min, max, f2);
            lemma_sample_range(min, max, f3);
        }
        Vec3 {
            x: sample_range(min, max, f1),
            y: sample_range(min, max, f2),
            z: sample_range(min, max, f3),
        }
    }

    /// A vector with each component drawn uniformly from `[0, 1)`, the
    /// diffuse-scatter proxy.
    pub open spec fn random_unit_spec(s: u64) -> (Vec3, u64) {
        let (s1, f1) = draw_spec(s);
        let (s2, f2) = draw_spec(s1);
        let (s3, f3) = draw_spec(s2);
        (Vec3 { x: f1, y: f2, z: f3 }, s3)
    }

    pub fn random_unit(rng: &mut Prng) -> (r: Vec3)
        ensures
            (r, final(rng).state) == Vec3::random_unit_spec(old(rng).state),
            0 <= r.x < SCALE && 0 <= r.y < SCALE && 0 <= r.z < SCALE,
    {
        let f1: i64 = rng.next_fraction();
        let f2: i64 = rng.next_fraction();
        let f3: i64 = rng.next_fraction();
        Vec3 { x: f1, y: f2, z: f3 }
    }

    /// A point of the unit lens disk in the `x`-`y` plane: rejection
    /// sampling with a bounded number of tries, falling back to the disk's
    /// center when every try lands outside.
    pub open spec fn disk_spec(s: u64, tries: nat) -> (Vec3, u64)
        decreases tries,
    {
        if tries == 0 {
            (Vec3 { x: 0, y: 0, z: 0 }, s)
        } else {
            let (s1, f1) = draw_spec(s);
            let (s2, f2) = draw_spec(s1);
            let p = Vec3 {
                x: fx_sub_spec(fx_add_spec(f1, f1), SCALE),
                y: fx_sub_spec(fx_add_spec(f2, f2), SCALE),
                z: 0,
            };
            if p.norm_sq_spec() < SCALE {
                (p, s2)
            } else {
                Vec3::disk_spec(s2, (tries - 1) as nat)
            }
        }
    }

    fn disk_sample(rng: &mut Prng, tries: u64) -> (r: Vec3)
        ensures
            (r, final(rng).state) == Vec3::disk_spec(old(rng).state, tries as nat),
            r.norm_sq_spec() < SCALE,
            r.z == 0,
        decreases tries,
    {
        if tries == 0 {
            proof {
                lemma_norm_sq_zero();
            }
            Vec3 { x: 0, y: 0, z: 0 }
        } else {
            let f1: i64 = rng.next_fraction();
            let f2: i64 = rng.next_fraction();
            let p = Vec3 { x: fx_sub(fx_add(f1, f1), SCALE), y: fx_sub(fx_add(f2, f2), SCALE), z: 0 };
            let q: i64 = p.norm_sqared();
            if q < SCALE {
                p
            } else {
                Vec3::disk_sample(rng, tries - 1)
            }
        }
    }

    pub fn random_in_unit_disk(rng: &mut Prng) -> (r: Vec3)
        ensures
            (r, final(rng).state) == Vec3::disk_spec(old(rng).state, 8),
            r.norm_sq_spec() < SCALE,
            r.z == 0,
    {
        Vec3::disk_sample(rng, 8)
    }
}

/// `min` plus the fraction `f` of the span from `min` to `max`.
pub open spec fn sample_range_spec(min: i64, max: i64, f: i64) -> i64 {
    fx_add_spec(min, fx_mul_spec(fx_sub_spec(max, min), f))
}

pub fn sample_range(min: i64, max: i64, f: i64) -> (r: i64)
    ensures
        r == sample_range_spec(min, max, f),
{
    fx_add(min, fx_mul(fx_sub(max, min), f))
}

/// When the span fits the scalar range, the sample stays inside `[min, max]`.
proof fn lemma_sample_range(min: i64, max: i64, f: i64)
    requires
        min < max,
        0 <= f < SCALE,
    ensures
        max - min <= i64::MAX ==> min <= sample_range_spec(min, max, f) <= max,
{
    if max - min <= i64::MAX {
        let d = fx_sub_spec(max, min);
        assert(d == max - min);
        let s = SCALE as int;
        let p = d * f;
        vstd::arithmetic::mul::lemma_mul_nonnegative(d as int, f as int);
        vstd::arithmetic::mul::lemma_mul_inequality(f as int, s, d as int);
        vstd::arithmetic::mul::lemma_mul_is_commutative(d as int, f as int);
        assert(0 <= p && p <= s * d);
        vstd::arithmetic::div_mod::lemma_div_pos_is_pos(p, s);
        vstd::arithmetic::div_mod::lemma_div_is_ordered(p, s * d, s);
        vstd::arithmetic::div_mod::lemma_div_multiples_vanish(d as int, s);
        assert((s * d) / s == d);
        assert(0 <= p / s <= d);
        assert(tdiv(p, s) == p / s);
    }
}

/// Squared norms are never negative.
pub proof fn lemma_norm_sq_nonneg(v: Vec3)
    ensures
        v.norm_sq_spec() >= 0,
{
    lemma_fx_square_nonneg(v.x);
    lemma_fx_square_nonneg(v.y);
    lemma_fx_square_nonneg(v.z);
}

/// A fixed-point square is never negative.
pub proof fn lemma_fx_square_nonneg(a: i64)
    ensures
        fx_mul_spec(a, a) >= 0,
{
    assert(a * a >= 0) by (nonlinear_arith);
    vstd::arithmetic::div_mod::lemma_div_pos_is_pos(a * a, SCALE as int);
}

/// The zero vector's squared norm is zero.
proof fn lemma_norm_sq_zero()
    ensures
        (Vec3 { x: 0, y: 0, z: 0 }).norm_sq_spec() == 0,
{
    assert(0int * 0 == 0) by (nonlinear_arith);
    assert(tdiv(0, SCALE as int) == 0) by {
        vstd::arithmetic::div_mod::lemma_div_pos_is_pos(0, SCALE as int);
        vstd::arithmetic::div_mod::lemma_div_nonincreasing(0, SCALE as int);
    }
}

/// A vector of exactly unit squared norm has components within one unit.
pub proof fn lemma_unit_components(v: Vec3)
    requires
        v.norm_sq_spec() == SCALE,
    ensures
        -SCALE <= v.x <= SCALE,
        -SCALE <= v.y <= SCALE,
        -SCALE <= v.z <= SCALE,
{
    lemma_fx_square_nonneg(v.x);
    lemma_fx_square_nonneg(v.y);
    lemma_fx_square_nonneg(v.z);
    lemma_unit_component(v.x, fx_mul_spec(v.x, v.x));
    lemma_unit_component(v.y, fx_mul_spec(v.y, v.y));
    lemma_unit_component(v.z, fx_mul_spec(v.z, v.z));
}

/// A component whose fixed-point square stays within one unit is itself
/// within one unit.
proof fn lemma_unit_component(x: i64, sq: i64)
    requires
        sq == fx_mul_spec(x, x),
        sq <= SCALE,
    ensures
        -SCALE <= x <= SCALE,
{
    assert(x * x >= 0) by (nonlinear_arith);
    vstd::arithmetic::div_mod::lemma_div_pos_is_pos(x * x, SCALE as int);
    vstd::arithmetic::div_mod::lemma_fundamental_div_mod(x * x, SCALE as int);
    vstd::arithmetic::div_mod::lemma_mod_bound(x * x, SCALE as int);
    let q = (x * x) / (SCALE as int);
    if q > i64::MAX {
        assert(sq == i64::MAX);
    }
    assert(q <= SCALE);
    assert(x * x <= 4295032831) by {
        assert(x * x == (SCALE as int) * q + (x * x) % (SCALE as int));
        vstd::arithmetic::mul::lemma_mul_inequality(q, SCALE as int, SCALE as int);
        vstd::arithmetic::mul::lemma_mul_is_commutative(q, SCALE as int);
        assert((SCALE as int) * (SCALE as int) == 4294967296) by (nonlinear_arith);
    }
    assert(-65536 <= x <= 65536) by (nonlinear_arith)
        requires
            x * x <= 4295032831,
    ;
}

/// Negating a vector with components within one unit negates each
/// component exactly and keeps the squared norm.
pub proof fn lemma_neg_preserves_norm_sq(v: Vec3)
    requires
        -SCALE <= v.x <= SCALE,
        -SCALE <= v.y <= SCALE,
        -SCALE <= v.z <= SCALE,
    ensures
        v.neg_spec().x == -v.x,
        v.neg_spec().y == -v.y,
        v.neg_spec().z == -v.z,
        v.neg_spec().norm_sq_spec() == v.norm_sq_spec(),
{
    assert((-(v.x as int)) * (-(v.x as int)) == v.x * v.x) by (nonlinear_arith);
    assert((-(v.y as int)) * (-(v.y as int)) == v.y * v.y) by (nonlinear_arith);
    assert((-(v.z as int)) * (-(v.z as int)) == v.z * v.z) by (nonlinear_arith);
}

/// Normalizing a vector that is already exactly unit length returns it
/// unchanged.
pub proof fn lemma_normalized_unit_identity(v: Vec3)
    requires
        v.norm_sq_spec() == SCALE,
    ensures
        v.normalized_spec() == v,
{
    crate::fixed::lemma_fx_sqrt_one();
    crate::fixed::lemma_fx_scale_identity(v.x);
    crate::fixed::lemma_fx_scale_identity(v.y);
    crate::fixed::lemma_fx_scale_identity(v.z);
}

/// A vector whose squared norm is positive has a positive norm, so it can
/// be normalized.
pub proof fn lemma_norm_pos(v: Vec3)
    requires
        v.norm_sq_spec() >= 1,
    ensures
        v.norm_spec() >= 1,
{
    let n = (v.norm_sq_spec() * (SCALE as int)) as nat;
    crate::fixed::lemma_sqrt_floor(n);
    let s = sqrt_floor(n);
    if s == 0 {
        assert((s + 1) * (s + 1) == 1) by (nonlinear_arith)
            requires
                s == 0,
        ;
    }
    assert(s < 0x10000000000) by (nonlinear_arith)
        requires
            s * s <= n && n <= 0x7fffffffffffffff0000,
    ;
}

} // verus!
