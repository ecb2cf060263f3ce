//! Textures: the albedo of a surface at a point.

use vstd::prelude::*;
use crate::color::Color;
use crate::fixed::{fx_mul, fx_mul_spec};
use crate::vec::Vec3;

verus! {

/// One half-turn in fixed point: the period of the sign of the sine.
pub const PI_FX: i64 = 205887;

/// A pure function from a surface point to a color.
#[derive(Clone, Copy, PartialEq, Eq, Structural, Debug)]
pub enum Texture {
    Constant { color: Color },
    Checkered { even: Color, odd: Color, size: i64 },
}

/// Whether the sine of `size * coord` is negative: the scaled coordinate
/// falls in an odd multiple of the half-turn.
pub open spec fn axis_odd_spec(size: i64, coord: i64) -> bool {
    ((fx_mul_spec(size, coord) as int) / (PI_FX as int)) % 2 == 1
}

/// Whether a point lands on the even cell of the spatial checker: the
/// product of the three coordinate sines is nonnegative, that is, an even
/// number of them is negative.
pub open spec fn checker_even_spec(size: i64, p: Vec3) -> bool {
    !((axis_odd_spec(size, p.x) != axis_odd_spec(size, p.y)) != axis_odd_spec(size, p.z))
}

impl Texture {
    /// The color of the texture at a point.
    pub open spec fn value_spec(self, point: Vec3) -> Color {
        match self {
            Texture::Constant { color } => color,
            Texture::Checkered { even, odd, size } => if checker_even_spec(size, point) {
                even
            } else {
                odd
            },
        }
    }

    pub fn new_constant(r: i64, g: i64, b: i64) -> (t: Texture)
        ensures
            t == (Texture::Constant { color: Color { r, g, b } }),
    {
        Texture::Constant { color: Color { r, g, b } }
    }

    pub fn value(self, point: Vec3) -> (c: Color)
        ensures
            c == self.value_spec(point),
    {
        match self {
            Texture::Constant { color } => color,
            Texture::Checkered { even, odd, size } => {
                let ox: bool = axis_odd(size, point.x);
                let oy: bool = axis_odd(size, point.y);
                let oz: bool = axis_odd(size, point.z);
                if !((ox != oy) != oz) {
                    even
                } else {
                    odd
                }
            },
        }
    }
}

/// Floor division by the half-turn constant, with the quotient's range.
fn floor_div_pi(a: i64) -> (r: i64)
    ensures
        r == (a as int) / (PI_FX as int),
        -44808061396994 <= r <= 44808061396994,
{
    let q: i64 = a / 205887;
    let rem: i64 = a % 205887;
    proof {
        if a >= 0 {
            vstd::arithmetic::div_mod::lemma_div_pos_is_pos(a as int, 205887);
            vstd::arithmetic::div_mod::lemma_div_nonincreasing(a as int, 205887);
            vstd::arithmetic::div_mod::lemma_fundamental_div_mod(a as int, 205887);
        } else {
            let m = -(a as int);
            vstd::arithmetic::div_mod::lemma_div_pos_is_pos(m, 205887);
            vstd::arithmetic::div_mod::lemma_div_nonincreasing(m, 205887);
            vstd::arithmetic::div_mod::lemma_fundamental_div_mod(m, 205887);
            vstd::arithmetic::div_mod::lemma_mod_bound(m, 205887);
            let mq = m / 205887;
            let mr = m % 205887;
            if mr == 0 {
                vstd::arithmetic::div_mod::lemma_fundamental_div_mod_converse(
                    a as int,
                    205887,
                    -mq,
                    0,
                );
            } else {
                vstd::arithmetic::div_mod::lemma_fundamental_div_mod_converse(
                    a as int,
                    205887,
                    -mq - 1,
                    205887 - mr,
                );
            }
        }
    }
    if a < 0 && rem != 0 {
        q - 1
    } else {
        q
    }
}

/// The even offset that shifts every quotient into the nonnegative range
/// without changing its parity.
const PARITY_SHIFT: i64 = 89616122793988;

fn axis_odd(size: i64, coord: i64) -> (r: bool)
    ensures
        r == axis_odd_spec(size, coord),
{
    let u: i64 = fx_mul(size, coord);
    let k: i64 = floor_div_pi(u);
    let k2: i64 = k + PARITY_SHIFT;
    proof {
        vstd::arithmetic::div_mod::lemma_mod_multiples_vanish(44808061396994, k as int, 2);
        vstd::arithmetic::div_mod::lemma_mod_bound(k as int, 2);
    }
    (k2 % 2) != 0
}

} // verus!
