//! Integer arithmetic helpers shared by the geometry and viewport code.
//!
//! Screen-space values carry a fixed sub-unit scale: one flow unit at zoom
//! `ZOOM_UNIT` spans `ZOOM_UNIT` screen units.  Per-mille fractions (padding,
//! curvature, easing) use `MILLE` as their denominator.

use vstd::prelude::*;

verus! {

/// Scale of the zoom factor: a zoom of `ZOOM_UNIT` is the identity scale.
pub const ZOOM_UNIT: i64 = 1000;

/// Denominator for per-mille fractions (padding, curvature, easing).
pub const MILLE: i64 = 1000;

/// Largest magnitude allowed for a flow-space coordinate or dimension.
pub const COORD_MAX: i64 = 0x40_0000_0000;

/// Largest magnitude allowed for a screen-space coordinate.
pub const SCREEN_MAX: i64 = 0x4000_0000_0000_0000;

/// Largest zoom factor, in `ZOOM_UNIT` units.
pub const ZOOM_MAX: i64 = 0x10_0000;

/// Largest magnitude allowed for a viewport translation.
pub const TRANSLATE_MAX: i64 = 0x2000_0000_0000_0000;

/// Largest viewport width or height, in screen units.
pub const SIZE_MAX: i64 = 0x1000_0000_0000_0000;

pub open spec fn translate_ok(x: int) -> bool {
    -TRANSLATE_MAX <= x <= TRANSLATE_MAX
}

pub open spec fn size_ok(s: int) -> bool {
    0 <= s <= SIZE_MAX
}

/// A translation forced into the representable range.
pub open spec fn clamp_translate_spec(t: int) -> int {
    clamp_spec(t, -TRANSLATE_MAX as int, TRANSLATE_MAX as int)
}

/// Clamp a wide translation into the representable range.
pub fn clamp_translate(t: i128) -> (r: i64)
    ensures
        r == clamp_translate_spec(t as int),
{
    if t < -TRANSLATE_MAX as i128 {
        -TRANSLATE_MAX
    } else if t > TRANSLATE_MAX as i128 {
        TRANSLATE_MAX
    } else {
        t as i64
    }
}

pub open spec fn coord_ok(x: int) -> bool {
    -COORD_MAX <= x <= COORD_MAX
}

/// A span of flow-space coordinates: the width of a bounding box over
/// in-range rectangles can reach four times the coordinate bound.
pub open spec fn span_ok(x: int) -> bool {
    -4 * COORD_MAX <= x <= 4 * COORD_MAX
}

pub open spec fn screen_ok(x: int) -> bool {
    -SCREEN_MAX <= x <= SCREEN_MAX
}

pub open spec fn zoom_ok(z: int) -> bool {
    1 <= z <= ZOOM_MAX
}

/// Floor division of `a` by a positive divisor `b`; agrees with the
/// mathematical (Euclidean) quotient `a / b` of the specification language.
pub fn div_floor(a: i64, b: i64) -> (q: i64)
    requires
        b >= 1,
        a > i64::MIN,
    ensures
        q == a as int / b as int,
        b * q <= a < b * (q + 1),
{
    if a >= 0 {
        let q: i64 = ((a as u64) / (b as u64)) as i64;
        proof {
            assert(q == a as int / b as int);
            vstd::arithmetic::div_mod::lemma_fundamental_div_mod(a as int, b as int);
            assert(b * q <= a < b * (q + 1)) by (nonlinear_arith)
                requires
                    q == a as int / b as int,
                    b >= 1,
                    a as int == b as int * (a as int / b as int) + a as int % b as int,
                    0 <= (a as int % b as int) < b as int,
            {
            }
        }
        q
    } else {
        let m: u64 = (-a) as u64;
        let qm: u64 = (m + (b as u64) - 1) / (b as u64);
        proof {
            let mi = m as int;
            let bi = b as int;
            vstd::arithmetic::div_mod::lemma_fundamental_div_mod(mi + bi - 1, bi);
            assert(qm <= mi) by (nonlinear_arith)
                requires
                    qm == (mi + bi - 1) / bi,
                    bi >= 1,
                    mi >= 1,
                    (mi + bi - 1) == bi * ((mi + bi - 1) / bi) + (mi + bi - 1) % bi,
                    0 <= ((mi + bi - 1) % bi) < bi,
            {
            }
        }
        let q: i64 = -(qm as i64);
        proof {
            let ai = a as int;
            let bi = b as int;
            let mi = m as int;
            vstd::arithmetic::div_mod::lemma_fundamental_div_mod(mi + bi - 1, bi);
            vstd::arithmetic::div_mod::lemma_fundamental_div_mod(ai, bi);
            assert(qm == (mi + bi - 1) / bi);
            assert(-(qm as int) == ai / bi) by (nonlinear_arith)
                requires
                    qm == (mi + bi - 1) / bi,
                    mi == -ai,
                    bi >= 1,
                    mi >= 1,
                    (mi + bi - 1) == bi * ((mi + bi - 1) / bi) + (mi + bi - 1) % bi,
                    0 <= ((mi + bi - 1) % bi) < bi,
                    ai == bi * (ai / bi) + ai % bi,
                    0 <= (ai % bi) < bi,
            {
            }
            vstd::arithmetic::div_mod::lemma_fundamental_div_mod(a as int, b as int);
            assert(b * q <= a < b * (q + 1)) by (nonlinear_arith)
                requires
                    q == a as int / b as int,
                    b >= 1,
                    a as int == b as int * (a as int / b as int) + a as int % b as int,
                    0 <= (a as int % b as int) < b as int,
            {
            }
        }
        q
    }
}

/// Floor division of a wide value by a positive divisor.
pub fn div_floor_i128(a: i128, b: i128) -> (q: i128)
    requires
        b >= 1,
        a > i128::MIN,
    ensures
        q == a as int / b as int,
        a >= 0 ==> 0 <= q <= a,
        a < 0 ==> a <= q <= 0,
{
    proof {
        let ai = a as int;
        let bi = b as int;
        vstd::arithmetic::div_mod::lemma_fundamental_div_mod(ai, bi);
        assert((ai >= 0 ==> 0 <= ai / bi <= ai) && (ai < 0 ==> ai <= ai / bi <= 0))
            by (nonlinear_arith)
            requires
                bi >= 1,
                ai == bi * (ai / bi) + ai % bi,
                0 <= (ai % bi) < bi,
        {
        }
    }
    if a >= 0 {
        let q: i128 = ((a as u128) / (b as u128)) as i128;
        proof {
            assert(q == a as int / b as int);
        }
        q
    } else {
        let m: u128 = (-a) as u128;
        let qm: u128 = (m + (b as u128) - 1) / (b as u128);
        proof {
            let mi = m as int;
            let bi = b as int;
            vstd::arithmetic::div_mod::lemma_fundamental_div_mod(mi + bi - 1, bi);
            assert(qm <= mi) by (nonlinear_arith)
                requires
                    qm == (mi + bi - 1) / bi,
                    bi >= 1,
                    mi >= 1,
                    (mi + bi - 1) == bi * ((mi + bi - 1) / bi) + (mi + bi - 1) % bi,
                    0 <= ((mi + bi - 1) % bi) < bi,
            {
            }
        }
        let q: i128 = -(qm as i128);
        proof {
            let ai = a as int;
            let bi = b as int;
            let mi = m as int;
            vstd::arithmetic::div_mod::lemma_fundamental_div_mod(mi + bi - 1, bi);
            vstd::arithmetic::div_mod::lemma_fundamental_div_mod(ai, bi);
            assert(qm == (mi + bi - 1) / bi);
            assert(-(qm as int) == ai / bi) by (nonlinear_arith)
                requires
                    qm == (mi + bi - 1) / bi,
                    mi == -ai,
                    bi >= 1,
                    mi >= 1,
                    (mi + bi - 1) == bi * ((mi + bi - 1) / bi) + (mi + bi - 1) % bi,
                    0 <= ((mi + bi - 1) % bi) < bi,
                    ai == bi * (ai / bi) + ai % bi,
                    0 <= (ai % bi) < bi,
            {
            }
        }
        q
    }
}

/// Product of two bounded values, exact and free of overflow.
pub fn mul_i64(a: i64, b: i64) -> (r: i64)
    requires
        -0x100_0000_0000 <= a <= 0x100_0000_0000,
        -0x40_0000 <= b <= 0x40_0000,
    ensures
        r == a * b,
        -0x4000_0000_0000_0000 <= r <= 0x4000_0000_0000_0000,
{
    proof {
        assert(-0x4000_0000_0000_0000 <= a * b <= 0x4000_0000_0000_0000)
            by (nonlinear_arith)
            requires
                -0x100_0000_0000 <= a <= 0x100_0000_0000,
                -0x40_0000 <= b <= 0x40_0000,
        {
        }
    }
    a * b
}

pub fn min_i64(a: i64, b: i64) -> (r: i64)
    ensures
        r == if a <= b { a as int } else { b as int },
{
    if a <= b { a } else { b }
}

pub fn max_i64(a: i64, b: i64) -> (r: i64)
    ensures
        r == if a >= b { a as int } else { b as int },
{
    if a >= b { a } else { b }
}

pub open spec fn clamp_spec(v: int, lo: int, hi: int) -> int {
    if v < lo { lo } else if v > hi { hi } else { v }
}

/// Clamp `v` into `[lo, hi]`; `lo` wins when the interval is empty, as with
/// the standard clamping order.
pub fn clamp_i64(v: i64, lo: i64, hi: i64) -> (r: i64)
    requires
        lo <= hi,
    ensures
        r == clamp_spec(v as int, lo as int, hi as int),
{
    if v < lo { lo } else if v > hi { hi } else { v }
}

pub fn abs_i64(a: i64) -> (r: i64)
    requires
        a > i64::MIN,
    ensures
        r == if a >= 0 { a as int } else { -a as int },
        r >= 0,
{
    if a >= 0 { a } else { -a }
}

/// The integer square root: the unique `r >= 0` with `r^2 <= n < (r+1)^2`.
pub open spec fn sqrt_floor(n: int) -> int {
    choose|r: int| 0 <= r && #[trigger] (r * r) <= n && n < (r + 1) * (r + 1)
}

/// A witness with the square-root property is the `sqrt_floor`.
pub proof fn lemma_sqrt_floor_unique(n: int, r: int)
    requires
        0 <= r,
        r * r <= n,
        n < (r + 1) * (r + 1),
    ensures
        sqrt_floor(n) == r,
{
    assert(0 <= r && #[trigger] (r * r) <= n && n < (r + 1) * (r + 1));
    let s = sqrt_floor(n);
    assert(0 <= s && s * s <= n && n < (s + 1) * (s + 1));
    assert(s == r) by (nonlinear_arith)
        requires
            0 <= r,
            r * r <= n,
            n < (r + 1) * (r + 1),
            0 <= s,
            s * s <= n,
            n < (s + 1) * (s + 1),
    {
    }
}

/// Integer square root: the largest `r` with `r * r <= n`.
pub fn isqrt_u64(n: u64) -> (r: u64)
    ensures
        r * r <= n,
        n < (r + 1) * (r + 1),
        r == sqrt_floor(n as int),
{
    let mut lo: u64 = 0;
    let mut hi: u64 = 0x1_0000_0000;
    // Invariant: lo * lo <= n < hi * hi.
    proof {
        assert((0x1_0000_0000u64 as int) * (0x1_0000_0000u64 as int) > u64::MAX as int)
            by (nonlinear_arith);
    }
    while hi - lo > 1
        invariant
            lo < hi <= 0x1_0000_0000,
            lo * lo <= n,
            n < hi * hi,
        decreases hi - lo,
    {
        let mid: u64 = lo + (hi - lo) / 2;
        proof {
            assert(lo < mid < hi);
            assert(mid * mid <= 0x1_0000_0000u64 * 0x1_0000_0000u64) by (nonlinear_arith)
                requires
                    0 <= mid <= 0x1_0000_0000u64,
            {
            }
        }
        if mid <= n / mid {
            proof {
                vstd::arithmetic::div_mod::lemma_fundamental_div_mod(n as int, mid as int);
                assert(mid * mid <= n) by (nonlinear_arith)
                    requires
                        mid >= 1,
                        mid as int <= n as int / mid as int,
                        n as int == mid as int * (n as int / mid as int) + n as int % mid as int,
                        0 <= (n as int % mid as int),
                {
                }
            }
            lo = mid;
        } else {
            proof {
                vstd::arithmetic::div_mod::lemma_fundamental_div_mod(n as int, mid as int);
                assert(n < mid * mid) by (nonlinear_arith)
                    requires
                        mid >= 1,
                        mid as int > n as int / mid as int,
                        n as int == mid as int * (n as int / mid as int) + n as int % mid as int,
                        (n as int % mid as int) < mid as int,
                {
                }
            }
            hi = mid;
        }
    }
    proof {
        lemma_sqrt_floor_unique(n as int, lo as int);
    }
    lo
}

/// Integer square root of a wide value: the largest `r` with `r * r <= n`.
pub fn isqrt_u128(n: u128) -> (r: u128)
    ensures
        r * r <= n,
        n < (r + 1) * (r + 1),
        r == sqrt_floor(n as int),
{
    let mut lo: u128 = 0;
    let mut hi: u128 = 0x1_0000_0000_0000_0000;
    proof {
        assert((0x1_0000_0000_0000_0000u128 as int) * (0x1_0000_0000_0000_0000u128 as int)
            > u128::MAX as int) by (nonlinear_arith);
    }
    while hi - lo > 1
        invariant
            lo < hi <= 0x1_0000_0000_0000_0000,
            lo * lo <= n,
            n < hi * hi,
        decreases hi - lo,
    {
        let mid: u128 = lo + (hi - lo) / 2;
        proof {
            assert(lo < mid < hi);
            assert(mid * mid <= 0x1_0000_0000_0000_0000u128 * 0x1_0000_0000_0000_0000u128)
                by (nonlinear_arith)
                requires
                    0 <= mid <= 0x1_0000_0000_0000_0000u128,
            {
            }
        }
        if mid <= n / mid {
            proof {
                vstd::arithmetic::div_mod::lemma_fundamental_div_mod(n as int, mid as int);
                assert(mid * mid <= n) by (nonlinear_arith)
                    requires
                        mid >= 1,
                        mid as int <= n as int / mid as int,
                        n as int == mid as int * (n as int / mid as int) + n as int % mid as int,
                        0 <= (n as int % mid as int),
                {
                }
            }
            lo = mid;
        } else {
            proof {
                vstd::arithmetic::div_mod::lemma_fundamental_div_mod(n as int, mid as int);
                assert(n < mid * mid) by (nonlinear_arith)
                    requires
                        mid >= 1,
                        mid as int > n as int / mid as int,
                        n as int == mid as int * (n as int / mid as int) + n as int % mid as int,
                        (n as int % mid as int) < mid as int,
                {
                }
            }
            hi = mid;
        }
    }
    proof {
        lemma_sqrt_floor_unique(n as int, lo as int);
    }
    lo
}

} // verus!
