//! Fixed-point scalar arithmetic.
//!
//! Every geometric quantity in this crate is a fixed-point number: an `i64`
//! that stands for the rational `v / SCALE`.  All operations saturate at the
//! `i64` range instead of wrapping, and each one is specified exactly by a
//! spec function over `int`, so the rest of the library can state what it
//! computes down to the last unit.

use vstd::prelude::*;

verus! {

/// The denominator of the fixed-point representation.
pub const SCALE: i64 = 65536;

/// The fixed-point scalar type.
pub type Float = i64;

/// Saturation of a mathematical integer into the `i64` range.
pub open spec fn clip(x: int) -> int {
    if x > i64::MAX as int {
        i64::MAX as int
    } else if x < i64::MIN as int {
        i64::MIN as int
    } else {
        x
    }
}

/// Round-toward-zero division, the semantics of Rust's `/` on signed integers.
pub open spec fn tdiv(x: int, d: int) -> int {
    if x == 0 {
        0
    } else if x > 0 && d > 0 {
        x / d
    } else if x < 0 && d < 0 {
        (x * -1) / (d * -1)
    } else if x < 0 {
        ((x * -1) / d) * -1
    } else {
        (x / (d * -1)) * -1
    }
}

/// What `fadd` returns.
pub open spec fn fx_add(a: int, b: int) -> int {
    clip(a + b)
}

/// What `fsub` returns.
pub open spec fn fx_sub(a: int, b: int) -> int {
    clip(a - b)
}

/// What `fneg` returns.
pub open spec fn fx_neg(a: int) -> int {
    clip(-a)
}

/// What `fmul` returns: the product rescaled back, rounded toward zero.
pub open spec fn fx_mul(a: int, b: int) -> int {
    clip(tdiv(a * b, SCALE as int))
}

/// What `fdiv` returns: the rescaled quotient, rounded toward zero.
/// Division by zero saturates by the sign of the numerator, and `0 / 0` is `0`.
pub open spec fn fx_div(a: int, b: int) -> int {
    if b == 0 {
        if a > 0 {
            i64::MAX as int
        } else if a < 0 {
            i64::MIN as int
        } else {
            0
        }
    } else {
        clip(tdiv(a * SCALE, b))
    }
}

/// `r` is the integer square root of `n`.
pub open spec fn is_sqrt(n: int, r: int) -> bool {
    &&& 0 <= r
    &&& r * r <= n
    &&& n < (r + 1) * (r + 1)
}

/// The integer square root of a nonnegative integer.
pub open spec fn sqrt_of(n: int) -> int {
    choose|r: int| is_sqrt(n, r)
}

/// What `fsqrt` returns.  A nonpositive argument is mapped to zero, as the
/// geometry only ever takes roots of quantities that are positive when real.
pub open spec fn fx_sqrt(a: int) -> int {
    if a <= 0 {
        0
    } else {
        sqrt_of(a * SCALE)
    }
}

/// What `fmin` returns.
pub open spec fn fx_min(a: int, b: int) -> int {
    if a <= b {
        a
    } else {
        b
    }
}

/// What `fmax` returns.
pub open spec fn fx_max(a: int, b: int) -> int {
    if a >= b {
        a
    } else {
        b
    }
}

/// What `fx` returns: a whole number taken onto the fixed-point scale.
pub open spec fn fx_whole(i: int) -> int {
    clip(i * SCALE)
}

/// The magnitude of a rounded-toward-zero quotient never exceeds the
/// magnitude of the dividend.
proof fn lemma_tdiv_magnitude(x: int, d: int)
    requires
        d != 0,
    ensures
        tdiv(x, d) <= (if x >= 0 { x } else { -x }),
        -(if x >= 0 { x } else { -x }) <= tdiv(x, d),
{
    if x == 0 {
    } else if x > 0 && d > 0 {
        vstd::arithmetic::div_mod::lemma_div_pos_is_pos(x, d);
        vstd::arithmetic::div_mod::lemma_div_nonincreasing(x, d);
    } else if x < 0 && d < 0 {
        vstd::arithmetic::div_mod::lemma_div_pos_is_pos(x * -1, d * -1);
        vstd::arithmetic::div_mod::lemma_div_nonincreasing(x * -1, d * -1);
    } else if x < 0 {
        vstd::arithmetic::div_mod::lemma_div_pos_is_pos(x * -1, d);
        vstd::arithmetic::div_mod::lemma_div_nonincreasing(x * -1, d);
    } else {
        vstd::arithmetic::div_mod::lemma_div_pos_is_pos(x, d * -1);
        vstd::arithmetic::div_mod::lemma_div_nonincreasing(x, d * -1);
    }
}

/// For a positive divisor, a rounded-toward-zero quotient takes the sign of
/// the dividend.
pub proof fn lemma_tdiv_sign(x: int, d: int)
    requires
        d >= 1,
    ensures
        x >= 0 ==> tdiv(x, d) >= 0,
        x <= 0 ==> tdiv(x, d) <= 0,
{
    lemma_tdiv_magnitude(x, d);
    if x > 0 {
        vstd::arithmetic::div_mod::lemma_div_pos_is_pos(x, d);
    } else if x < 0 {
        vstd::arithmetic::div_mod::lemma_div_pos_is_pos(x * -1, d);
    }
}

/// The product of two numbers in the `i64` range stays far inside `i128`.
proof fn lemma_product_in_range(a: int, b: int)
    by (nonlinear_arith)
    requires
        -0x8000_0000_0000_0000 <= a <= 0x7fff_ffff_ffff_ffff,
        -0x8000_0000_0000_0000 <= b <= 0x7fff_ffff_ffff_ffff,
    ensures
        a * b <= 0x4000_0000_0000_0000_0000_0000_0000_0000,
        -0x4000_0000_0000_0000_0000_0000_0000_0000 <= a * b,
{
}

/// Every nonnegative integer has an integer square root.
proof fn lemma_sqrt_exists(n: int)
    requires
        n >= 0,
    ensures
        exists|r: int| is_sqrt(n, r),
    decreases n,
{
    if n == 0 {
        assert(is_sqrt(0, 0)) by (nonlinear_arith);
    } else {
        lemma_sqrt_exists(n - 1);
        let m = n - 1;
        let r = choose|r: int| is_sqrt(m, r);
        if (r + 1) * (r + 1) <= n {
            assert(is_sqrt(n, r + 1)) by (nonlinear_arith)
                requires
                    is_sqrt(m, r),
                    m == n - 1,
                    (r + 1) * (r + 1) <= n,
            ;
        } else {
            assert(is_sqrt(n, r));
        }
    }
}

/// The denoted square root of a nonnegative number is its nonnegative
/// integer root.
pub proof fn lemma_sqrt_of(n: int)
    requires
        n >= 0,
    ensures
        is_sqrt(n, sqrt_of(n)),
        sqrt_of(n) >= 0,
{
    lemma_sqrt_exists(n);
}

/// Two integer square roots of the same number are equal, so `sqrt_of`
/// denotes exactly the root that `is_sqrt` describes.
proof fn lemma_sqrt_unique(n: int, r: int)
    requires
        is_sqrt(n, r),
    ensures
        sqrt_of(n) == r,
{
    assert(is_sqrt(n, sqrt_of(n))) by {
        assert(exists|q: int| is_sqrt(n, q)) by {
            assert(is_sqrt(n, r));
        }
    }
    let s = sqrt_of(n);
    assert(s == r) by (nonlinear_arith)
        requires
            is_sqrt(n, r),
            is_sqrt(n, s),
    ;
}

/// Saturation of an `i128` into the `i64` range.
pub fn clip128(x: i128) -> (r: i64)
    ensures
        r as int == clip(x as int),
{
    if x > i64::MAX as i128 {
        i64::MAX
    } else if x < i64::MIN as i128 {
        i64::MIN
    } else {
        x as i64
    }
}

/// Saturating fixed-point addition.
pub fn fadd(a: Float, b: Float) -> (r: Float)
    ensures
        r as int == fx_add(a as int, b as int),
{
    clip128(a as i128 + b as i128)
}

/// Saturating fixed-point subtraction.
pub fn fsub(a: Float, b: Float) -> (r: Float)
    ensures
        r as int == fx_sub(a as int, b as int),
{
    clip128(a as i128 - b as i128)
}

/// Saturating fixed-point negation.
pub fn fneg(a: Float) -> (r: Float)
    ensures
        r as int == fx_neg(a as int),
{
    clip128(-(a as i128))
}

/// Saturating fixed-point multiplication, rounded toward zero.
pub fn fmul(a: Float, b: Float) -> (r: Float)
    ensures
        r as int == fx_mul(a as int, b as int),
{
    proof {
        lemma_product_in_range(a as int, b as int);
    }
    let p: i128 = (a as i128) * (b as i128);
    let q = match p.checked_div(SCALE as i128) {
        Some(q) => q,
        None => 0,
    };
    proof {
        lemma_tdiv_magnitude(p as int, SCALE as int);
    }
    clip128(q)
}

/// Saturating fixed-point division, rounded toward zero; division by zero
/// saturates by the sign of the numerator.
pub fn fdiv(a: Float, b: Float) -> (r: Float)
    ensures
        r as int == fx_div(a as int, b as int),
{
    if b == 0 {
        if a > 0 {
            i64::MAX
        } else if a < 0 {
            i64::MIN
        } else {
            0
        }
    } else {
        proof {
            lemma_product_in_range(a as int, SCALE as int);
        }
        let n: i128 = (a as i128) * (SCALE as i128);
        let q = match n.checked_div(b as i128) {
            Some(q) => q,
            None => 0,
        };
        proof {
            lemma_tdiv_magnitude(n as int, b as int);
        }
        clip128(q)
    }
}

/// Two to the fortieth power, whose square bounds every root taken here.
pub const ROOT_BOUND: u64 = 0x100_0000_0000;

/// The integer square root, by binary search over the root.
fn isqrt(n: u128) -> (r: u64)
    requires
        n < ROOT_BOUND as int * ROOT_BOUND as int,
    ensures
        is_sqrt(n as int, r as int),
{
    let mut lo: u64 = 0;
    let mut hi: u64 = ROOT_BOUND;
    while lo + 1 < hi
        invariant
            lo < hi,
            hi <= ROOT_BOUND,
            (lo as int) * (lo as int) <= n as int,
            (n as int) < (hi as int) * (hi as int),
        decreases hi - lo,
    {
        let mid = lo + (hi - lo) / 2;
        assert(lo < mid < hi);
        proof {
            assert(mid as int * mid as int <= ROOT_BOUND as int * ROOT_BOUND as int)
                by (nonlinear_arith)
                requires
                    0 <= mid as int <= ROOT_BOUND as int,
            ;
        }
        if (mid as u128) * (mid as u128) <= n {
            lo = mid;
        } else {
            hi = mid;
        }
    }
    lo
}

/// Fixed-point square root: zero on nonpositive input.
pub fn fsqrt(a: Float) -> (r: Float)
    ensures
        r as int == fx_sqrt(a as int),
{
    if a <= 0 {
        0
    } else {
        proof {
            lemma_product_in_range(a as int, SCALE as int);
        }
        let n: u128 = (a as u128) * (SCALE as u128);
        let r = isqrt(n);
        proof {
            lemma_sqrt_unique(n as int, r as int);
            assert(r < ROOT_BOUND) by (nonlinear_arith)
                requires
                    is_sqrt(n as int, r as int),
                    n < ROOT_BOUND as int * ROOT_BOUND as int,
            ;
        }
        r as i64
    }
}

/// The smaller of two fixed-point numbers.
pub fn fmin(a: Float, b: Float) -> (r: Float)
    ensures
        r as int == fx_min(a as int, b as int),
{
    if a <= b {
        a
    } else {
        b
    }
}

/// The larger of two fixed-point numbers.
pub fn fmax(a: Float, b: Float) -> (r: Float)
    ensures
        r as int == fx_max(a as int, b as int),
{
    if a >= b {
        a
    } else {
        b
    }
}

/// Rounded-toward-zero division by a positive divisor is monotone in the
/// dividend.
pub proof fn lemma_tdiv_monotone(x1: int, x2: int, d: int)
    requires
        d >= 1,
        x1 <= x2,
    ensures
        tdiv(x1, d) <= tdiv(x2, d),
{
    lemma_tdiv_sign(x1, d);
    lemma_tdiv_sign(x2, d);
    if x1 > 0 {
        vstd::arithmetic::div_mod::lemma_div_is_ordered(x1, x2, d);
    } else if x2 < 0 {
        vstd::arithmetic::div_mod::lemma_div_is_ordered(x2 * -1, x1 * -1, d);
    }
}

/// Negating the dividend negates a rounded-toward-zero quotient.
proof fn lemma_tdiv_neg(x: int, d: int)
    requires
        d != 0,
    ensures
        tdiv(-x, d) == -tdiv(x, d),
{
}

/// Multiplying by one on the fixed-point scale only saturates.
pub proof fn lemma_fx_mul_one(v: int)
    ensures
        fx_mul(v, SCALE as int) == clip(v),
{
    broadcast use vstd::arithmetic::mul::lemma_mul_is_commutative;

    if v > 0 {
        vstd::arithmetic::div_mod::lemma_div_multiples_vanish(v, SCALE as int);
    } else if v < 0 {
        vstd::arithmetic::div_mod::lemma_div_multiples_vanish(-v, SCALE as int);
        assert(v * (SCALE as int) * -1 == (-v) * (SCALE as int)) by (nonlinear_arith);
    }
}

/// Multiplying by minus one on the fixed-point scale negates, then
/// saturates.
pub proof fn lemma_fx_mul_neg_one(v: int)
    ensures
        fx_mul(v, -(SCALE as int)) == clip(-v),
{
    assert(v * -(SCALE as int) == -(v * (SCALE as int))) by (nonlinear_arith);
    lemma_tdiv_neg(v * (SCALE as int), SCALE as int);
    lemma_fx_mul_one(v);
}

/// Fixed-point division by a nonnegative divisor is monotone in the
/// dividend.
pub proof fn lemma_fx_div_monotone(n1: int, n2: int, d: int)
    requires
        n1 <= n2,
        d >= 0,
    ensures
        fx_div(n1, d) <= fx_div(n2, d),
{
    if d != 0 {
        lemma_tdiv_monotone(n1 * SCALE, n2 * SCALE, d);
    }
}

/// Relates the rounded-toward-zero quotient to the floor quotient and the
/// nonnegative remainder of the specification language.
proof fn lemma_ediv_from_tdiv(a: int, d: int)
    requires
        d >= 1,
    ensures
        ({
            let q0 = tdiv(a, d);
            let rw = a - q0 * d;
            &&& -d < rw < d
            &&& (a >= 0 ==> rw >= 0)
            &&& (rw >= 0 ==> q0 == a / d && rw == a % d)
            &&& (rw < 0 ==> q0 - 1 == a / d && rw + d == a % d)
        }),
{
    broadcast use vstd::arithmetic::mul::lemma_mul_is_commutative;
    broadcast use vstd::arithmetic::mul::lemma_mul_is_distributive_sub_other_way;

    let q0 = tdiv(a, d);
    let rw = a - q0 * d;
    if a >= 0 {
        vstd::arithmetic::div_mod::lemma_fundamental_div_mod(a, d);
        assert(q0 == a / d);
    } else {
        vstd::arithmetic::div_mod::lemma_fundamental_div_mod(a * -1, d);
        assert(q0 == ((a * -1) / d) * -1);
        assert(rw == -((a * -1) % d));
        if rw < 0 {
            assert((q0 - 1) * d == q0 * d - d);
            vstd::arithmetic::div_mod::lemma_fundamental_div_mod_converse(a, d, q0 - 1, rw + d);
        } else {
            vstd::arithmetic::div_mod::lemma_fundamental_div_mod_converse(a, d, q0, rw);
        }
    }
}

/// A euclidean quotient lies between zero and the dividend.
proof fn lemma_euclid_quotient_range(a: int, d: int, q: int, r: int)
    by (nonlinear_arith)
    requires
        d >= 1,
        0 <= r < d,
        a == q * d + r,
    ensures
        a >= 0 ==> 0 <= q <= a,
        a < 0 ==> a <= q <= 0,
{
}

/// Floor division with a nonnegative remainder: the `/` and `%` of the
/// specification language, computed on machine integers.
pub fn ediv(a: i64, d: i64) -> (r: (i64, i64))
    requires
        1 <= d,
    ensures
        r.0 as int == a as int / d as int,
        r.1 as int == a as int % d as int,
{
    proof {
        lemma_tdiv_magnitude(a as int, d as int);
        lemma_tdiv_sign(a as int, d as int);
        lemma_ediv_from_tdiv(a as int, d as int);
    }
    let q0 = match a.checked_div(d) {
        Some(q) => q,
        None => 0,
    };
    proof {
        lemma_product_in_range(q0 as int, d as int);
    }
    let rw: i128 = (a as i128) - (q0 as i128) * (d as i128);
    proof {
        vstd::arithmetic::div_mod::lemma_fundamental_div_mod(a as int, d as int);
        assert((q0 as int - 1) * (d as int) == (d as int) * (q0 as int - 1)) by (nonlinear_arith);
        assert((q0 as int) * (d as int) == (d as int) * (q0 as int)) by (nonlinear_arith);
    }
    if rw < 0 {
        proof {
            lemma_euclid_quotient_range(
                a as int,
                d as int,
                q0 as int - 1,
                rw as int + d as int,
            );
        }
        (q0 - 1, (rw + d as i128) as i64)
    } else {
        proof {
            lemma_euclid_quotient_range(a as int, d as int, q0 as int, rw as int);
        }
        (q0, rw as i64)
    }
}

/// A whole number on the fixed-point scale.
pub fn fx(i: i64) -> (r: Float)
    ensures
        r as int == fx_whole(i as int),
{
    proof {
        lemma_product_in_range(i as int, SCALE as int);
    }
    clip128(i as i128 * SCALE as i128)
}

} // verus!
