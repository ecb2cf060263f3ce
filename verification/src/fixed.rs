//! Fixed-point scalar arithmetic.
//!
//! Every scalar quantity of the renderer is a fixed-point number: an `i64`
//! holding the quantity times `SCALE`. All operations saturate at the `i64`
//! range, so they are total; their results are pinned exactly by spec
//! functions over mathematical integers.

use vstd::prelude::*;

verus! {

/// One whole unit in fixed-point representation.
pub const SCALE: i64 = 65536;

/// Absolute value of a mathematical integer.
pub open spec fn abs_int(a: int) -> int {
    if a < 0 { -a } else { a }
}

/// Saturation to the `i64` range.
pub open spec fn clip(x: int) -> int {
    if x > i64::MAX { i64::MAX as int } else if x < i64::MIN { i64::MIN as int } else { x }
}

/// Truncating (round-toward-zero) division, as machine division performs it:
/// the quotient of the magnitudes, negated when the signs differ.
pub open spec fn tdiv(a: int, b: int) -> int
    recommends
        b != 0,
{
    if (a < 0) != (b < 0) {
        -(abs_int(a) / abs_int(b))
    } else {
        abs_int(a) / abs_int(b)
    }
}

/// The fixed-point product of `a` and `b`.
pub open spec fn fx_mul_spec(a: i64, b: i64) -> i64 {
    clip(tdiv(a * b, SCALE as int)) as i64
}

proof fn lemma_i128_product_bound(a: i64, b: i64)
    ensures
        abs_int(a * b) <= 0x40000000000000000000000000000000,
{
    assert(abs_int(a * b) <= 0x40000000000000000000000000000000) by (nonlinear_arith)
        requires
            -0x8000000000000000 <= a <= 0x7fffffffffffffff,
            -0x8000000000000000 <= b <= 0x7fffffffffffffff,
    ;
}

/// Fixed-point multiplication, saturating at the `i64` range.
pub fn fx_mul(a: i64, b: i64) -> (r: i64)
    ensures
        r == fx_mul_spec(a, b),
{
    proof {
        lemma_i128_product_bound(a, b);
    }
    let p: i128 = (a as i128) * (b as i128);
    let q: i128 = p / (SCALE as i128);
    assert(q == tdiv(a * b, SCALE as int));
    if q > i64::MAX as i128 {
        i64::MAX
    } else if q < i64::MIN as i128 {
        i64::MIN
    } else {
        q as i64
    }
}

/// The fixed-point quotient of `a` by `b`.
pub open spec fn fx_div_spec(a: i64, b: i64) -> i64
    recommends
        b != 0,
{
    clip(tdiv(a * (SCALE as int), b as int)) as i64
}

/// Fixed-point division, saturating at the `i64` range. The quotient is
/// computed on magnitudes, so it truncates toward zero.
pub fn fx_div(a: i64, b: i64) -> (r: i64)
    requires
        b != 0,
    ensures
        r == fx_div_spec(a, b),
{
    let neg: bool = (a < 0) != (b < 0);
    let am: u128 = if a >= 0 {
        a as u128
    } else {
        (-(a as i128)) as u128
    };
    let bm: u128 = if b >= 0 {
        b as u128
    } else {
        (-(b as i128)) as u128
    };
    let pm: u128 = am * (SCALE as u128);
    let qm: u128 = pm / bm;
    proof {
        assert(am == abs_int(a as int));
        assert(bm == abs_int(b as int));
        assert(pm == abs_int(a * (SCALE as int)));
        vstd::arithmetic::div_mod::lemma_div_nonincreasing(pm as int, bm as int);
        assert(qm == abs_int(a * (SCALE as int)) / abs_int(b as int));
    }
    let q: i128 = if neg {
        -(qm as i128)
    } else {
        qm as i128
    };
    assert(q == tdiv(a * (SCALE as int), b as int));
    if q > i64::MAX as i128 {
        i64::MAX
    } else if q < i64::MIN as i128 {
        i64::MIN
    } else {
        q as i64
    }
}

/// The saturating sum of `a` and `b`.
pub open spec fn fx_add_spec(a: i64, b: i64) -> i64 {
    clip(a + b) as i64
}

/// Saturating addition.
pub fn fx_add(a: i64, b: i64) -> (r: i64)
    ensures
        r == fx_add_spec(a, b),
{
    let p: i128 = (a as i128) + (b as i128);
    if p > i64::MAX as i128 {
        i64::MAX
    } else if p < i64::MIN as i128 {
        i64::MIN
    } else {
        p as i64
    }
}

/// The saturating difference of `a` and `b`.
pub open spec fn fx_sub_spec(a: i64, b: i64) -> i64 {
    clip(a - b) as i64
}

/// Saturating subtraction.
pub fn fx_sub(a: i64, b: i64) -> (r: i64)
    ensures
        r == fx_sub_spec(a, b),
{
    let p: i128 = (a as i128) - (b as i128);
    if p > i64::MAX as i128 {
        i64::MAX
    } else if p < i64::MIN as i128 {
        i64::MIN
    } else {
        p as i64
    }
}

/// The saturating negation of `a`.
pub open spec fn fx_neg_spec(a: i64) -> i64 {
    clip(-a) as i64
}

/// Saturating negation.
pub fn fx_neg(a: i64) -> (r: i64)
    ensures
        r == fx_neg_spec(a),
{
    if a == i64::MIN {
        i64::MAX
    } else {
        -a
    }
}

/// Dividing zero by anything positive leaves zero.
pub proof fn lemma_tdiv_zero(b: int)
    requires
        b > 0,
    ensures
        tdiv(0, b) == 0,
{
    vstd::arithmetic::div_mod::lemma_div_pos_is_pos(0, b);
    vstd::arithmetic::div_mod::lemma_div_nonincreasing(0, b);
}

/// Multiplying or dividing by one whole unit changes nothing: both reduce
/// to `tdiv(x * SCALE, SCALE)`.
pub proof fn lemma_fx_scale_identity(x: i64)
    ensures
        fx_mul_spec(x, SCALE) == x,
        fx_mul_spec(SCALE, x) == x,
        fx_div_spec(x, SCALE) == x,
{
    vstd::arithmetic::mul::lemma_mul_is_commutative(x as int, SCALE as int);
    if x >= 0 {
        vstd::arithmetic::mul::lemma_mul_nonnegative(x as int, SCALE as int);
        vstd::arithmetic::div_mod::lemma_div_multiples_vanish(x as int, SCALE as int);
    } else {
        vstd::arithmetic::div_mod::lemma_div_multiples_vanish(-(x as int), SCALE as int);
    }
}

/// Multiplying by minus one whole unit is negation, saturation included.
pub proof fn lemma_fx_neg_scale_identity(x: i64)
    ensures
        fx_mul_spec(x, (-65536) as i64) == fx_neg_spec(x),
{
    assert(x * ((-65536) as i64) == -(x * 65536)) by (nonlinear_arith);
    if x >= 0 {
        vstd::arithmetic::div_mod::lemma_div_multiples_vanish(x as int, SCALE as int);
    } else {
        vstd::arithmetic::div_mod::lemma_div_multiples_vanish(-(x as int), SCALE as int);
    }
}

/// The square root of one whole unit is one whole unit.
pub proof fn lemma_fx_sqrt_one()
    ensures
        fx_sqrt_spec(SCALE) == SCALE,
{
    assert((SCALE as int) * (SCALE as int) == 4294967296) by (nonlinear_arith);
    assert(65536 * 65536 == 4294967296int) by (nonlinear_arith);
    assert(65537 * 65537 == 4295098369int) by (nonlinear_arith);
    lemma_sqrt_floor_unique(4294967296nat, 65536nat);
}

/// The square root of zero is zero.
pub proof fn lemma_fx_sqrt_zero()
    ensures
        fx_sqrt_spec(0) == 0,
{
    assert((0 * (SCALE as int)) as nat == 0);
    assert(sqrt_floor(0nat) == 0);
}

/// Plain integer division of a fixed-point value by a positive count,
/// as the averaging of accumulated samples asks for.
pub fn fx_int_div(a: i64, b: i64) -> (r: i64)
    requires
        b >= 1,
    ensures
        r == tdiv(a as int, b as int),
{
    proof {
        if a >= 0 {
            vstd::arithmetic::div_mod::lemma_div_pos_is_pos(a as int, b as int);
            vstd::arithmetic::div_mod::lemma_div_nonincreasing(a as int, b as int);
        } else {
            vstd::arithmetic::div_mod::lemma_div_pos_is_pos(-(a as int), b as int);
            vstd::arithmetic::div_mod::lemma_div_nonincreasing(-(a as int), b as int);
        }
    }
    a / b
}

/// The square root of `n`, rounded down to an integer.
pub open spec fn sqrt_floor(n: nat) -> nat
    decreases n,
{
    if n == 0 {
        0
    } else {
        let s = sqrt_floor((n - 1) as nat);
        if (s + 1) * (s + 1) <= n {
            s + 1
        } else {
            s
        }
    }
}

/// `sqrt_floor(n)` brackets `n`: `sqrt_floor(n)^2 <= n < (sqrt_floor(n) + 1)^2`.
pub proof fn lemma_sqrt_floor(n: nat)
    ensures
        sqrt_floor(n) * sqrt_floor(n) <= n,
        n < (sqrt_floor(n) + 1) * (sqrt_floor(n) + 1),
    decreases n,
{
    if n > 0 {
        let m = (n - 1) as nat;
        lemma_sqrt_floor(m);
        let s = sqrt_floor(m);
        if (s + 1) * (s + 1) <= n {
            assert(sqrt_floor(n) == s + 1);
            assert(n <= (s + 1) * (s + 1));
            assert((s + 1) * (s + 1) < (s + 2) * (s + 2)) by (nonlinear_arith)
                requires
                    s >= 0,
            ;
        } else {
            assert(sqrt_floor(n) == s);
        }
    } else {
        assert(sqrt_floor(n) == 0);
        assert(n < (sqrt_floor(n) + 1) * (sqrt_floor(n) + 1)) by (nonlinear_arith)
            requires
                n == 0 && sqrt_floor(n) == 0,
        ;
    }
}

/// Square roots are unique: any `s` within the bracketing bounds is `sqrt_floor(n)`.
pub proof fn lemma_sqrt_floor_unique(n: nat, s: nat)
    requires
        s * s <= n,
        n < (s + 1) * (s + 1),
    ensures
        s == sqrt_floor(n),
{
    let t = sqrt_floor(n);
    lemma_sqrt_floor(n);
    if s < t {
        assert((s + 1) * (s + 1) <= t * t) by (nonlinear_arith)
            requires
                0 <= s + 1 <= t,
        ;
    } else if t < s {
        assert((t + 1) * (t + 1) <= s * s) by (nonlinear_arith)
            requires
                0 <= t + 1 <= s,
        ;
    }
}

/// The fixed-point square root of `a`: since `a` holds `SCALE` times its
/// quantity, the root of the quantity is `sqrt_floor(a * SCALE)`.
pub open spec fn fx_sqrt_spec(a: i64) -> i64
    recommends
        a >= 0,
{
    sqrt_floor((a * (SCALE as int)) as nat) as i64
}

/// Fixed-point square root by bracketing binary search.
pub fn fx_sqrt(a: i64) -> (r: i64)
    requires
        a >= 0,
    ensures
        r == fx_sqrt_spec(a),
        r >= 0,
{
    let x: u128 = a as u128;
    let n: u128 = x * 65536;
    assert(n == a * (SCALE as int));
    let mut lo: u128 = 0;
    let mut hi: u128 = 0x10000000000;
    proof {
        assert((n as int) < 0x10000000000 * 0x10000000000) by (nonlinear_arith)
            requires
                n as int <= 0x7fffffffffffffff0000,
        ;
    }
    while lo + 1 < hi
        invariant
            lo < hi <= 0x10000000000,
            lo * lo <= n,
            n < hi * hi,
        decreases hi - lo,
    {
        let mid: u128 = lo + (hi - lo) / 2;
        proof {
            assert(mid * mid <= 0x100000000000000000000) by (nonlinear_arith)
                requires
                    0 <= mid <= 0x10000000000,
            ;
        }
        if mid * mid <= n {
            lo = mid;
        } else {
            hi = mid;
        }
    }
    proof {
        assert((lo + 1) * (lo + 1) == hi * hi) by (nonlinear_arith)
            requires
                lo + 1 == hi,
        ;
        lemma_sqrt_floor_unique(n as nat, lo as nat);
    }
    lo as i64
}

} // verus!
