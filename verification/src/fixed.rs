//! Signed 16.16 fixed-point arithmetic.
//!
//! A scalar is an `i32` whose value is the stored integer divided by
//! [`ONE`]. Every operation is total: a result that does not fit is pinned
//! to the nearest end of the `i32` range, and a quotient is rounded towards
//! negative infinity.
use vstd::arithmetic::div_mod::{lemma_fundamental_div_mod, lemma_fundamental_div_mod_converse};
use vstd::prelude::*;

verus! {

/// The stored integer that stands for the value one.
pub const ONE: i32 = 65536;

/// The stored integer that stands for one half.
pub const HALF: i32 = 32768;

/// `v` pinned into the range of `i32`.
pub open spec fn saturate(v: int) -> i32 {
    if v < -0x8000_0000 {
        i32::MIN
    } else if v > 0x7fff_ffff {
        i32::MAX
    } else {
        v as i32
    }
}

/// The greatest integer not above the rational `n / d`; zero when `d` is zero.
pub open spec fn floor_ratio(n: int, d: int) -> int {
    if d > 0 {
        n / d
    } else if d < 0 {
        (-n) / (-d)
    } else {
        0
    }
}

/// `floor_ratio` is the floor of the quotient: it is the one integer `q`
/// with `q <= n / d < q + 1`, written without division.
pub proof fn lemma_floor_ratio_bounds(n: int, d: int)
    requires
        d != 0,
    ensures
        d > 0 ==> d * floor_ratio(n, d) <= n < d * floor_ratio(n, d) + d,
        d < 0 ==> d * floor_ratio(n, d) >= n > d * floor_ratio(n, d) + d,
{
    if d > 0 {
        lemma_fundamental_div_mod(n, d);
    } else {
        lemma_fundamental_div_mod(-n, -d);
        let q = (-n) / (-d);
        assert((-d) * q == -(d * q)) by (nonlinear_arith);
    }
}

/// A quotient of a value between two multiples of the divisor lies between
/// the two factors.
pub proof fn lemma_floor_ratio_between(n: int, d: int, lo: int, hi: int)
    requires
        d != 0,
        d > 0 ==> lo * d <= n <= hi * d,
        d < 0 ==> lo * d >= n >= hi * d,
    ensures
        lo <= floor_ratio(n, d) <= hi,
{
    lemma_floor_ratio_bounds(n, d);
    let q = floor_ratio(n, d);
    if d > 0 {
        assert(q >= lo) by (nonlinear_arith)
            requires
                d > 0,
                lo * d <= n,
                n < d * q + d,
        ;
        assert(q <= hi) by (nonlinear_arith)
            requires
                d > 0,
                n <= hi * d,
                d * q <= n,
        ;
    } else {
        assert(q >= lo) by (nonlinear_arith)
            requires
                d < 0,
                lo * d >= n,
                n > d * q + d,
        ;
        assert(q <= hi) by (nonlinear_arith)
            requires
                d < 0,
                n >= hi * d,
                d * q >= n,
        ;
    }
}

/// Pins a wide integer into the range of `i32`.
pub fn saturate_i32(v: i128) -> (r: i32)
    ensures
        r == saturate(v as int),
{
    if v < -0x8000_0000 {
        i32::MIN
    } else if v > 0x7fff_ffff {
        i32::MAX
    } else {
        v as i32
    }
}

/// Floor of the quotient of two wide integers; zero for a zero divisor.
pub fn div_floor(n: i128, d: i128) -> (q: i128)
    requires
        i128::MIN < n,
        i128::MIN < d,
    ensures
        q == floor_ratio(n as int, d as int),
{
    if d == 0 {
        return 0;
    }
    let (num, den): (i128, i128) = if d > 0 {
        (n, d)
    } else {
        (-n, -d)
    };
    if num >= 0 {
        num / den
    } else {
        let m: i128 = -(num + 1);
        let k: i128 = m / den;
        proof {
            lemma_fundamental_div_mod(m as int, den as int);
            let r = (m as int) % (den as int);
            assert((-k - 1) * den + (den - 1 - r) == num) by (nonlinear_arith)
                requires
                    m == den * k + r,
                    m == -(num + 1),
            ;
            lemma_fundamental_div_mod_converse(num as int, den as int, -k - 1, den - 1 - r);
        }
        -k - 1
    }
}

/// The product of two scalars.
pub open spec fn mul_spec(a: i32, b: i32) -> i32 {
    saturate((a * b) / (ONE as int))
}

/// The exact product of two stored integers.
pub fn wide_product(a: i32, b: i32) -> (p: i64)
    ensures
        p == a * b,
        -0x4000_0000_0000_0000 < p <= 0x4000_0000_0000_0000,
{
    let x: i64 = a as i64;
    let y: i64 = b as i64;
    assert(-0x4000_0000_0000_0000 < x * y <= 0x4000_0000_0000_0000) by (nonlinear_arith)
        requires
            -0x8000_0000 <= x < 0x8000_0000,
            -0x8000_0000 <= y < 0x8000_0000,
    ;
    x * y
}

/// Rescales a wide sum of products of two scalars back to a scalar.
pub fn narrow(v: i128) -> (r: i32)
    requires
        i128::MIN < v,
    ensures
        r == saturate((v as int) / (ONE as int)),
{
    saturate_i32(div_floor(v, 65536))
}

/// Multiplies two scalars.
pub fn fx_mul(a: i32, b: i32) -> (r: i32)
    ensures
        r == mul_spec(a, b),
{
    narrow(wide_product(a, b) as i128)
}

/// The quotient of two scalars. Division by zero gives the end of the range
/// on the side of the dividend, and zero for zero over zero.
pub open spec fn div_spec(a: i32, b: i32) -> i32 {
    if b == 0 {
        if a > 0 {
            i32::MAX
        } else if a < 0 {
            i32::MIN
        } else {
            0
        }
    } else {
        saturate(floor_ratio(a * (ONE as int), b as int))
    }
}

/// Divides one scalar by another.
pub fn fx_div(a: i32, b: i32) -> (r: i32)
    ensures
        r == div_spec(a, b),
{
    if b == 0 {
        if a > 0 {
            i32::MAX
        } else if a < 0 {
            i32::MIN
        } else {
            0
        }
    } else {
        let n: i128 = (a as i128) * 65536;
        saturate_i32(div_floor(n, b as i128))
    }
}

/// The sum of two scalars.
pub open spec fn add_spec(a: i32, b: i32) -> i32 {
    saturate(a + b)
}

/// Adds two scalars.
pub fn fx_add(a: i32, b: i32) -> (r: i32)
    ensures
        r == add_spec(a, b),
{
    saturate_i32((a as i128) + (b as i128))
}

/// The difference of two scalars.
pub open spec fn sub_spec(a: i32, b: i32) -> i32 {
    saturate(a - b)
}

/// Subtracts one scalar from another.
pub fn fx_sub(a: i32, b: i32) -> (r: i32)
    ensures
        r == sub_spec(a, b),
{
    saturate_i32((a as i128) - (b as i128))
}

/// `v` pinned between `lo` and `hi`.
pub open spec fn clamp_spec(v: i32, lo: i32, hi: i32) -> i32 {
    if v < lo {
        lo
    } else if v > hi {
        hi
    } else {
        v
    }
}

/// Pins a scalar between two bounds.
pub fn fx_clamp(v: i32, lo: i32, hi: i32) -> (r: i32)
    ensures
        r == clamp_spec(v, lo, hi),
{
    if v < lo {
        lo
    } else if v > hi {
        hi
    } else {
        v
    }
}

/// The scalar that stands for a whole number.
pub open spec fn from_int_spec(n: int) -> i32 {
    saturate(n * (ONE as int))
}

/// Converts a whole number to a scalar.
pub fn from_int(n: i32) -> (r: i32)
    ensures
        r == from_int_spec(n as int),
{
    saturate_i32((n as i128) * 65536)
}

/// Whether `r` is the integer square root of `n`.
pub open spec fn is_int_sqrt(n: int, r: int) -> bool {
    0 <= r && r * r <= n < (r + 1) * (r + 1)
}

/// The integer square root: the greatest `r` with `r * r <= n`.
pub open spec fn int_sqrt(n: int) -> int {
    choose|r: int| is_int_sqrt(n, r)
}

/// Every natural number has an integer square root.
pub proof fn lemma_int_sqrt_exists(n: int)
    requires
        n >= 0,
    ensures
        exists|r: int| is_int_sqrt(n, r),
    decreases n,
{
    if n == 0 {
        assert(is_int_sqrt(0, 0));
    } else {
        let m = n - 1;
        lemma_int_sqrt_exists(m);
        let r = choose|r: int| is_int_sqrt(m, r);
        if (r + 1) * (r + 1) <= n {
            assert((r + 1) * (r + 1) == n);
            assert(n < (r + 2) * (r + 2)) by (nonlinear_arith)
                requires
                    (r + 1) * (r + 1) == n,
                    r >= 0,
            ;
            assert(is_int_sqrt(n, r + 1));
        } else {
            assert(is_int_sqrt(n, r));
        }
    }
}

/// A number has at most one integer square root.
pub proof fn lemma_int_sqrt_unique(n: int, a: int, b: int)
    requires
        is_int_sqrt(n, a),
        is_int_sqrt(n, b),
    ensures
        a == b,
{
    if a < b {
        assert((a + 1) * (a + 1) <= b * b) by (nonlinear_arith)
            requires
                0 <= a,
                a + 1 <= b,
        ;
    } else if b < a {
        assert((b + 1) * (b + 1) <= a * a) by (nonlinear_arith)
            requires
                0 <= b,
                b + 1 <= a,
        ;
    }
}

/// Computes the integer square root by bisection.
pub fn isqrt(n: u64) -> (r: u32)
    ensures
        is_int_sqrt(n as int, r as int),
        r == int_sqrt(n as int),
{
    let mut lo: u64 = 0;
    let mut hi: u64 = 0x1_0000_0000;
    assert(lo * lo <= n);
    assert(n < hi * hi) by (nonlinear_arith)
        requires
            hi == 0x1_0000_0000,
            n <= 0xffff_ffff_ffff_ffff,
    ;
    while hi - lo > 1
        invariant
            lo < hi <= 0x1_0000_0000,
            lo * lo <= n < hi * hi,
        decreases hi - lo,
    {
        let mid: u64 = lo + (hi - lo) / 2;
        assert(mid * mid <= 0xffff_ffff * 0xffff_ffff) by (nonlinear_arith)
            requires
                0 <= mid <= 0xffff_ffff,
        ;
        if mid * mid <= n {
            lo = mid;
        } else {
            hi = mid;
        }
    }
    proof {
        assert(hi == lo + 1);
        assert(is_int_sqrt(n as int, lo as int));
        lemma_int_sqrt_unique(n as int, lo as int, int_sqrt(n as int));
    }
    lo as u32
}

} // verus!
