//! 16.16 fixed-point arithmetic: the number format of the whole pipeline.
//!
//! A value `v` stands for the real number `v / 65536`. All operations are
//! exact integer arithmetic; quotients truncate toward zero, and the
//! transform stages saturate at generous bounds instead of overflowing, so
//! every stage is a total function.

use vstd::arithmetic::div_mod::{
    lemma_div_is_ordered, lemma_div_multiples_vanish, lemma_div_pos_is_pos,
};
use vstd::math::abs;
use vstd::prelude::*;

verus! {

/// One, in 16.16 fixed point.
pub const FX_ONE: i64 = 0x10000;

/// Half of one: the offset from a pixel corner to its center.
pub const FX_HALF: i64 = 0x8000;

/// Largest magnitude of a matrix entry the pipeline accepts.
pub const MAT_LIMIT: i64 = 0x2_0000_0000;

/// Saturation bound of a transformed homogeneous component.
pub const COMP_LIMIT: i64 = 0x4000_0000_0000_0000;

/// Saturation bound of screen-space coordinates and depths after the
/// perspective division; far outside any real viewport.
pub const RASTER_LIMIT: i64 = 0x100_0000_0000;

/// Integer division truncating toward zero, total (zero divisor gives
/// zero). This is the rounding of every fixed-point quotient here.
pub open spec fn div_trunc(a: int, b: int) -> int {
    if b == 0 {
        0
    } else if (a < 0) != (b < 0) {
        -(abs(a) as int / abs(b) as int)
    } else {
        abs(a) as int / abs(b) as int
    }
}

/// `v` clamped to `[-lim, lim]`.
pub open spec fn clamp(v: int, lim: int) -> int {
    if v > lim {
        lim
    } else if v < -lim {
        -lim
    } else {
        v
    }
}

/// The fixed-point product of `a` and `b`.
pub open spec fn fx_mul_spec(a: int, b: int) -> int {
    div_trunc(a * b, FX_ONE as int)
}

/// The fixed-point quotient `a / b`, saturated at `RASTER_LIMIT`.
pub open spec fn fx_div_spec(a: int, b: int) -> int {
    clamp(div_trunc(a * FX_ONE, b), RASTER_LIMIT as int)
}

/// A fixed-point dot product of two rows of four: the accumulation runs
/// exactly, then one truncating division rescales it.
pub open spec fn sdot4(
    a0: int,
    a1: int,
    a2: int,
    a3: int,
    b0: int,
    b1: int,
    b2: int,
    b3: int,
) -> int {
    div_trunc(a0 * b0 + a1 * b1 + a2 * b2 + a3 * b3, FX_ONE as int)
}

/// `sdot4` saturated at `COMP_LIMIT`: the value a transform stage stores.
pub open spec fn sdot4_sat(
    a0: int,
    a1: int,
    a2: int,
    a3: int,
    b0: int,
    b1: int,
    b2: int,
    b3: int,
) -> int {
    clamp(sdot4(a0, a1, a2, a3, b0, b1, b2, b3), COMP_LIMIT as int)
}

/// Bound on a product from bounds on its factors.
pub proof fn lemma_abs_mul_le(a: int, b: int, ca: int, cb: int)
    requires
        -ca <= a <= ca,
        -cb <= b <= cb,
        0 <= ca,
        0 <= cb,
    ensures
        -(ca * cb) <= a * b <= ca * cb,
{
    assert(-(ca * cb) <= a * b <= ca * cb) by (nonlinear_arith)
        requires
            -ca <= a <= ca,
            -cb <= b <= cb,
            0 <= ca,
            0 <= cb,
    ;
}

/// The magnitude of a truncating quotient is the quotient of the
/// magnitudes.
pub proof fn lemma_div_trunc_abs(a: int, b: int)
    requires
        b > 0,
    ensures
        abs(div_trunc(a, b)) == abs(a) as int / b,
        a >= 0 ==> div_trunc(a, b) == a / b,
{
    lemma_div_pos_is_pos(abs(a) as int, b);
}

/// A truncating quotient of a bounded dividend by a positive divisor is
/// bounded by the quotient of the bounds.
pub proof fn lemma_div_trunc_le(a: int, b: int, bound: int)
    requires
        b > 0,
        0 <= bound,
        -bound <= a <= bound,
    ensures
        -(bound / b) <= div_trunc(a, b) <= bound / b,
{
    lemma_div_trunc_abs(a, b);
    lemma_div_is_ordered(abs(a) as int, bound, b);
    lemma_div_pos_is_pos(abs(a) as int, b);
}

/// A truncating quotient lies between `lo` and `hi` whenever the dividend
/// lies between `lo` and `hi` times the (positive) divisor. In particular
/// a convex combination stays inside the hull of its points.
pub proof fn lemma_div_trunc_bounds(n: int, d: int, lo: int, hi: int)
    requires
        d > 0,
        lo * d <= n,
        n <= hi * d,
    ensures
        lo <= div_trunc(n, d) <= hi,
{
    if n >= 0 {
        lemma_div_trunc_abs(n, d);
        // Upper: n <= hi * d, so n / d <= (hi * d) / d == hi.
        assert(hi * d == d * hi) by (nonlinear_arith);
        lemma_div_is_ordered(n, hi * d, d);
        lemma_div_multiples_vanish(hi, d);
        // Lower: either lo <= 0 <= n / d, or lo == (lo * d) / d <= n / d.
        if lo > 0 {
            assert(lo * d == d * lo) by (nonlinear_arith);
            lemma_div_is_ordered(lo * d, n, d);
            lemma_div_multiples_vanish(lo, d);
        } else {
            lemma_div_pos_is_pos(n, d);
        }
    } else {
        let p = -n;
        assert(div_trunc(n, d) == -(p / d));
        // Lower: p <= (-lo) * d, so p / d <= -lo, i.e. lo <= -(p / d).
        assert(lo < 0) by (nonlinear_arith)
            requires
                d > 0,
                lo * d <= n,
                n < 0,
        ;
        assert(p <= (-lo) * d && (-lo) * d == d * (-lo)) by (nonlinear_arith)
            requires
                lo * d <= n,
                p == -n,
        ;
        lemma_div_is_ordered(p, (-lo) * d, d);
        lemma_div_multiples_vanish(-lo, d);
        // Upper: either hi >= 0 >= -(p / d), or p >= (-hi) * d makes
        // p / d >= -hi, i.e. -(p / d) <= hi.
        if hi < 0 {
            assert((-hi) * d <= p && (-hi) * d == d * (-hi)) by (nonlinear_arith)
                requires
                    n <= hi * d,
                    p == -n,
            ;
            lemma_div_is_ordered((-hi) * d, p, d);
            lemma_div_multiples_vanish(-hi, d);
        } else {
            lemma_div_pos_is_pos(p, d);
        }
    }
}

/// Bound on a saturated dot product from bounds on its two sides.
pub proof fn lemma_sdot4_sat_bound(
    a0: int,
    a1: int,
    a2: int,
    a3: int,
    b0: int,
    b1: int,
    b2: int,
    b3: int,
    ba: int,
    bb: int,
)
    requires
        0 <= ba,
        0 <= bb,
        -ba <= a0 <= ba,
        -ba <= a1 <= ba,
        -ba <= a2 <= ba,
        -ba <= a3 <= ba,
        -bb <= b0 <= bb,
        -bb <= b1 <= bb,
        -bb <= b2 <= bb,
        -bb <= b3 <= bb,
    ensures
        -((4 * ba * bb) / (FX_ONE as int)) <= sdot4(a0, a1, a2, a3, b0, b1, b2, b3) <= (4 * ba
            * bb) / (FX_ONE as int),
        -((4 * ba * bb) / (FX_ONE as int)) <= sdot4_sat(a0, a1, a2, a3, b0, b1, b2, b3) <= (4
            * ba * bb) / (FX_ONE as int),
{
    lemma_abs_mul_le(a0, b0, ba, bb);
    lemma_abs_mul_le(a1, b1, ba, bb);
    lemma_abs_mul_le(a2, b2, ba, bb);
    lemma_abs_mul_le(a3, b3, ba, bb);
    assert(4 * ba * bb == ba * bb + ba * bb + ba * bb + ba * bb) by (nonlinear_arith);
    assert(ba * bb >= 0) by (nonlinear_arith)
        requires
            ba >= 0,
            bb >= 0,
    ;
    lemma_div_trunc_le(a0 * b0 + a1 * b1 + a2 * b2 + a3 * b3, FX_ONE as int, 4 * ba * bb);
}

/// Truncating division of `n` by positive `d`, both machine-width.
fn div_trunc_i128(n: i128, d: i128) -> (q: i128)
    requires
        d > 0,
        n > i128::MIN,
    ensures
        q == div_trunc(n as int, d as int),
        abs(q as int) <= abs(n as int),
{
    proof {
        lemma_div_trunc_abs(n as int, d as int);
        lemma_div_is_ordered_weak(abs(n as int) as int, d as int);
    }
    if n >= 0 {
        n / d
    } else {
        -((-n) / d)
    }
}

/// `x / d <= x` for nonnegative `x` and positive `d`.
proof fn lemma_div_is_ordered_weak(x: int, d: int)
    requires
        x >= 0,
        d > 0,
    ensures
        0 <= x / d <= x,
{
    lemma_div_pos_is_pos(x, d);
    vstd::arithmetic::div_mod::lemma_div_nonincreasing(x, d);
}

/// Fixed-point product of two bounded values.
pub fn fx_mul(a: i64, b: i64) -> (r: i64)
    requires
        -MAT_LIMIT <= a <= MAT_LIMIT,
        -MAT_LIMIT <= b <= MAT_LIMIT,
    ensures
        r == fx_mul_spec(a as int, b as int),
        -MAT_LIMIT * MAT_LIMIT <= r <= MAT_LIMIT * MAT_LIMIT,
{
    proof {
        lemma_abs_mul_le(a as int, b as int, MAT_LIMIT as int, MAT_LIMIT as int);
        lemma_div_trunc_le(
            a as int * b as int,
            FX_ONE as int,
            MAT_LIMIT as int * MAT_LIMIT as int,
        );
        lemma_div_is_ordered_weak(MAT_LIMIT as int * MAT_LIMIT as int, FX_ONE as int);
    }
    let p: i128 = (a as i128) * (b as i128);
    let q = div_trunc_i128(p, FX_ONE as i128);
    q as i64
}

/// Fixed-point quotient, saturated at `RASTER_LIMIT`; total but for a zero
/// divisor.
pub fn fx_div(a: i64, b: i64) -> (r: i64)
    requires
        b != 0,
        -COMP_LIMIT <= a <= COMP_LIMIT,
    ensures
        r == fx_div_spec(a as int, b as int),
        -RASTER_LIMIT <= r <= RASTER_LIMIT,
{
    let n: i128 = (a as i128) * (FX_ONE as i128);
    let bb: i128 = b as i128;
    proof {
        lemma_div_trunc_abs_general(n as int, bb as int);
    }
    let na: i128 = if n < 0 {
        -n
    } else {
        n
    };
    let ba: i128 = if bb < 0 {
        -bb
    } else {
        bb
    };
    let q0: i128 = na / ba;
    let q: i128 = if (n < 0) != (bb < 0) {
        -q0
    } else {
        q0
    };
    if q > RASTER_LIMIT as i128 {
        RASTER_LIMIT
    } else if q < -(RASTER_LIMIT as i128) {
        -RASTER_LIMIT
    } else {
        q as i64
    }
}

/// Truncating division agrees with division of magnitudes, whatever the
/// signs.
proof fn lemma_div_trunc_abs_general(a: int, b: int)
    requires
        b != 0,
    ensures
        abs(div_trunc(a, b)) == abs(a) as int / abs(b) as int,
        0 <= abs(a) as int / abs(b) as int <= abs(a) as int,
{
    lemma_div_is_ordered_weak(abs(a) as int, abs(b) as int);
}

/// One row-times-column step of the transform pipeline: the `a` side is a
/// matrix row (entries within `MAT_LIMIT`), the `b` side a homogeneous
/// vector (components within `COMP_LIMIT`); the result saturates at
/// `COMP_LIMIT`.
pub fn dot4(a0: i64, a1: i64, a2: i64, a3: i64, b0: i64, b1: i64, b2: i64, b3: i64) -> (r: i64)
    requires
        -MAT_LIMIT <= a0 <= MAT_LIMIT,
        -MAT_LIMIT <= a1 <= MAT_LIMIT,
        -MAT_LIMIT <= a2 <= MAT_LIMIT,
        -MAT_LIMIT <= a3 <= MAT_LIMIT,
        -COMP_LIMIT <= b0 <= COMP_LIMIT,
        -COMP_LIMIT <= b1 <= COMP_LIMIT,
        -COMP_LIMIT <= b2 <= COMP_LIMIT,
        -COMP_LIMIT <= b3 <= COMP_LIMIT,
    ensures
        r == sdot4_sat(
            a0 as int,
            a1 as int,
            a2 as int,
            a3 as int,
            b0 as int,
            b1 as int,
            b2 as int,
            b3 as int,
        ),
        -COMP_LIMIT <= r <= COMP_LIMIT,
{
    proof {
        lemma_abs_mul_le(a0 as int, b0 as int, MAT_LIMIT as int, COMP_LIMIT as int);
        lemma_abs_mul_le(a1 as int, b1 as int, MAT_LIMIT as int, COMP_LIMIT as int);
        lemma_abs_mul_le(a2 as int, b2 as int, MAT_LIMIT as int, COMP_LIMIT as int);
        lemma_abs_mul_le(a3 as int, b3 as int, MAT_LIMIT as int, COMP_LIMIT as int);
    }
    let s: i128 = (a0 as i128) * (b0 as i128) + (a1 as i128) * (b1 as i128) + (a2 as i128) * (
    b2 as i128) + (a3 as i128) * (b3 as i128);
    let q = div_trunc_i128(s, FX_ONE as i128);
    if q > COMP_LIMIT as i128 {
        COMP_LIMIT
    } else if q < -(COMP_LIMIT as i128) {
        -COMP_LIMIT
    } else {
        q as i64
    }
}

} // verus!
