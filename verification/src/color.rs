//! Linear radiance triples and their tone mapping.
//!
//! Color arithmetic is componentwise and never clamps intermediate values;
//! clamping and gamma correction happen only in `to_pixel`, at the final
//! write to the 8-bit range.

use vstd::prelude::*;
use crate::fixed::{
    fx_add, fx_add_spec, fx_int_div, fx_mul, fx_mul_spec, fx_sqrt, fx_sub, fx_sub_spec,
    sqrt_floor, tdiv, SCALE,
};
use crate::ray::Ray;
use crate::vec::Vec3;

verus! {

/// The largest channel value that survives the output clamp, one quantum
/// under one (the clamp to `[0, 0.999]` of the tone mapper).
pub const CLAMP_MAX: i64 = 65470;

/// A linear RGB radiance value, unbounded during accumulation.
#[derive(Clone, Copy, PartialEq, Eq, Structural, Debug)]
pub struct Color {
    pub r: i64,
    pub g: i64,
    pub b: i64,
}

impl Color {
    /// The componentwise sum.
    pub open spec fn add_spec(self, o: Color) -> Color {
        Color { r: fx_add_spec(self.r, o.r), g: fx_add_spec(self.g, o.g), b: fx_add_spec(self.b, o.b) }
    }

    /// The componentwise difference.
    pub open spec fn sub_spec(self, o: Color) -> Color {
        Color { r: fx_sub_spec(self.r, o.r), g: fx_sub_spec(self.g, o.g), b: fx_sub_spec(self.b, o.b) }
    }

    /// The componentwise product, attenuation of one color by another.
    pub open spec fn mul_spec(self, o: Color) -> Color {
        Color { r: fx_mul_spec(self.r, o.r), g: fx_mul_spec(self.g, o.g), b: fx_mul_spec(self.b, o.b) }
    }

    /// The product with a scalar.
    pub open spec fn scale_spec(self, s: i64) -> Color {
        Color { r: fx_mul_spec(self.r, s), g: fx_mul_spec(self.g, s), b: fx_mul_spec(self.b, s) }
    }

    /// Pure black: the absence of light.
    pub open spec fn black_spec() -> Color {
        Color { r: 0, g: 0, b: 0 }
    }

    /// Pure white.
    pub open spec fn white_spec() -> Color {
        Color { r: SCALE, g: SCALE, b: SCALE }
    }

    pub fn add(self, o: Color) -> (r: Color)
        ensures
            r == self.add_spec(o),
    {
        Color { r: fx_add(self.r, o.r), g: fx_add(self.g, o.g), b: fx_add(self.b, o.b) }
    }

    pub fn sub(self, o: Color) -> (r: Color)
        ensures
            r == self.sub_spec(o),
    {
        Color { r: fx_sub(self.r, o.r), g: fx_sub(self.g, o.g), b: fx_sub(self.b, o.b) }
    }

    pub fn mul(self, o: Color) -> (r: Color)
        ensures
            r == self.mul_spec(o),
    {
        Color { r: fx_mul(self.r, o.r), g: fx_mul(self.g, o.g), b: fx_mul(self.b, o.b) }
    }

    pub fn scale(self, s: i64) -> (r: Color)
        ensures
            r == self.scale_spec(s),
    {
        Color { r: fx_mul(self.r, s), g: fx_mul(self.g, s), b: fx_mul(self.b, s) }
    }

    /// The componentwise quotient by a whole count.
    pub open spec fn div_int_spec(self, n: u32) -> Color
        recommends
            n >= 1,
    {
        Color {
            r: tdiv(self.r as int, n as int) as i64,
            g: tdiv(self.g as int, n as int) as i64,
            b: tdiv(self.b as int, n as int) as i64,
        }
    }

    pub fn div_int(self, n: u32) -> (r: Color)
        requires
            n >= 1,
        ensures
            r == self.div_int_spec(n),
    {
        Color {
            r: fx_int_div(self.r, n as i64),
            g: fx_int_div(self.g, n as i64),
            b: fx_int_div(self.b, n as i64),
        }
    }

    /// The running mean after folding in the `n`-th sample: the old mean
    /// moved toward the sample by a one-in-`n` fraction of the difference.
    pub open spec fn running_average_spec(self, sample: Color, n: u32) -> Color
        recommends
            n >= 1,
    {
        self.add_spec(sample.sub_spec(self).div_int_spec(n))
    }

    pub fn running_average(self, sample: Color, n: u32) -> (r: Color)
        requires
            n >= 1,
        ensures
            r == self.running_average_spec(sample, n),
    {
        self.add(sample.sub(self).div_int(n))
    }

    /// The fixed-point channel for an 8-bit one.
    pub open spec fn byte_channel_spec(v: u8) -> i64 {
        tdiv(v * (SCALE as int), 255) as i64
    }

    pub fn new_rgb(r: u8, g: u8, b: u8) -> (c: Color)
        ensures
            c.r == Color::byte_channel_spec(r),
            c.g == Color::byte_channel_spec(g),
            c.b == Color::byte_channel_spec(b),
    {
        Color {
            r: fx_int_div((r as i64) * 65536, 255),
            g: fx_int_div((g as i64) * 65536, 255),
            b: fx_int_div((b as i64) * 65536, 255),
        }
    }

    pub fn new(r: i64, g: i64, b: i64) -> (c: Color)
        ensures
            c.r == r && c.g == g && c.b == b,
    {
        Color { r, g, b }
    }

    pub fn white() -> (c: Color)
        ensures
            c == Color::white_spec(),
    {
        Color { r: SCALE, g: SCALE, b: SCALE }
    }

    pub fn black() -> (c: Color)
        ensures
            c == Color::black_spec(),
    {
        Color { r: 0, g: 0, b: 0 }
    }

    /// The sky gradient for a ray: a vertical blend from white at the
    /// horizon to a pale blue at the zenith. A direction too short to
    /// normalize is used as it stands, so the gradient is total.
    pub open spec fn sky_spec(ray: Ray) -> Color {
        let u = if ray.dir.norm_sq_spec() >= 1 {
            ray.dir.normalized_spec()
        } else {
            ray.dir
        };
        let t = fx_mul_spec(32768, fx_add_spec(u.y, SCALE));
        let back = fx_sub_spec(SCALE, t);
        (Color { r: SCALE, g: SCALE, b: SCALE }).scale_spec(back).add_spec(
            (Color { r: 32768, g: 45875, b: SCALE }).scale_spec(t),
        )
    }

    pub fn sky(ray: &Ray) -> (c: Color)
        ensures
            c == Color::sky_spec(*ray),
    {
        let q: i64 = ray.dir.norm_sqared();
        let unit_dir: Vec3 = if q >= 1 {
            ray.dir.normalized()
        } else {
            ray.dir
        };
        let t: i64 = fx_mul(32768, fx_add(unit_dir.y, SCALE));
        let back: i64 = fx_sub(SCALE, t);
        let white = Color { r: SCALE, g: SCALE, b: SCALE };
        let horizon = Color { r: 32768, g: 45875, b: SCALE };
        white.scale(back).add(horizon.scale(t))
    }

    /// One channel averaged over the sample count, gamma-corrected by
    /// square root, clamped, and scaled to the 8-bit range.
    pub open spec fn channel_pixel_spec(v: i64, num_samples: u32) -> u8
        recommends
            num_samples >= 1,
    {
        let avg = tdiv(v as int, num_samples as int);
        let lit = if avg < 0 { 0 } else { avg };
        let g = sqrt_floor((lit * (SCALE as int)) as nat) as i64;
        let cl = if g > CLAMP_MAX { CLAMP_MAX as int } else { g as int };
        ((cl * 255) / (SCALE as int)) as u8
    }

    /// The gamma-corrected 8-bit triple for an accumulated color.
    pub open spec fn to_pixel_spec(self, num_samples: u32) -> (u8, u8, u8)
        recommends
            num_samples >= 1,
    {
        (
            Color::channel_pixel_spec(self.r, num_samples),
            Color::channel_pixel_spec(self.g, num_samples),
            Color::channel_pixel_spec(self.b, num_samples),
        )
    }

    pub fn to_pixel(&self, num_samples: u32) -> (p: (u8, u8, u8))
        requires
            num_samples >= 1,
        ensures
            p == self.to_pixel_spec(num_samples),
    {
        (
            channel_pixel(self.r, num_samples),
            channel_pixel(self.g, num_samples),
            channel_pixel(self.b, num_samples),
        )
    }

    /// Whether every channel is below the degeneracy threshold in
    /// magnitude; the threshold is finer than one quantum, so it holds
    /// exactly of black.
    pub fn near_zero(&self) -> (r: bool)
        ensures
            r == (*self == Color::black_spec()),
    {
        self.r == 0 && self.g == 0 && self.b == 0
    }

    /// Whether two colors agree to within the degeneracy threshold, which
    /// in fixed-point quanta is exact equality.
    pub fn is_close(&self, c: &Color) -> (r: bool)
        ensures
            r == (self.r == c.r && self.g == c.g && self.b == c.b),
    {
        let d: Color = self.sub(*c);
        d.r == 0 && d.g == 0 && d.b == 0
    }
}

fn channel_pixel(v: i64, num_samples: u32) -> (p: u8)
    requires
        num_samples >= 1,
    ensures
        p == Color::channel_pixel_spec(v, num_samples),
{
    let avg: i64 = fx_int_div(v, num_samples as i64);
    let lit: i64 = if avg < 0 {
        0
    } else {
        avg
    };
    let g: i64 = fx_sqrt(lit);
    let cl: i64 = if g > CLAMP_MAX {
        CLAMP_MAX
    } else {
        g
    };
    proof {
        vstd::arithmetic::div_mod::lemma_div_pos_is_pos(cl * 255, SCALE as int);
        vstd::arithmetic::div_mod::lemma_div_is_ordered(cl * 255, 16694850int, SCALE as int);
        assert(16694850int / (SCALE as int) == 254);
    }
    ((cl * 255) / SCALE) as u8
}

} // verus!
