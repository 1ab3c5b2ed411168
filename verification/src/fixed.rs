//! Fixed-point scalars for the camera model.
//!
//! Every camera quantity (angle in radians, world distance, log-zoom) is
//! stored as a signed count of micro-units: one unit equals [`UNIT`]
//! micro-units. The helpers here give the exact integer semantics of the
//! three scalar operations the camera needs: truncating division (for
//! input sensitivity scaling), linear interpolation by a micro-unit
//! interpolant (for exponential smoothing), and division rounding half
//! away from zero (for snapping angles to whole turns on reset).

use vstd::prelude::*;
use vstd::arithmetic::div_mod::{
    lemma_div_is_ordered, lemma_div_is_ordered_by_denominator, lemma_div_multiples_vanish,
    lemma_div_multiples_vanish_fancy,
    lemma_div_nonincreasing, lemma_div_plus_one, lemma_div_pos_is_pos, lemma_remainder,
};
use vstd::arithmetic::mul::{
    lemma_mul_inequality, lemma_mul_is_associative, lemma_mul_is_commutative,
    lemma_mul_is_distributive_sub_other_way, lemma_mul_unary_negation,
};

verus! {

/// One unit (one radian, one world unit, one pixel, one wheel line) in the
/// micro-unit fixed-point scale used throughout the camera model.
pub const UNIT: i64 = 1_000_000;

/// A full turn (tau, 2 pi radians) in micro-radians, rounded to the nearest
/// whole micro-radian.
pub const TURN: i64 = 6_283_185;

/// Absolute difference of two integers.
pub open spec fn dist(a: int, b: int) -> int {
    if a <= b {
        b - a
    } else {
        a - b
    }
}

/// Division by a positive divisor that rounds toward zero, matching the
/// division the executable helpers perform.
pub open spec fn div_trunc(n: int, d: int) -> int
    recommends
        d > 0,
{
    if n >= 0 {
        n / d
    } else {
        -((-n) / d)
    }
}

/// Linear interpolation from `a` toward `b`: the step is the fraction
/// `alpha / UNIT` of the remaining difference, truncated toward zero.
/// `alpha == 0` stays at `a`; `alpha == UNIT` reaches `b` exactly.
pub open spec fn lerp_fix(a: int, b: int, alpha: int) -> int {
    a + div_trunc(alpha * (b - a), UNIT as int)
}

/// Division by a positive divisor that rounds to the nearest integer,
/// halves away from zero (the rounding used to snap angles to whole turns).
pub open spec fn round_div(n: int, d: int) -> int
    recommends
        d > 0,
{
    if n >= 0 {
        (2 * n + d) / (2 * d)
    } else {
        -((2 * (-n) + d) / (2 * d))
    }
}

/// Truncating division of a machine integer by a positive divisor.
pub fn div_trunc_i64(n: i64, d: i64) -> (q: i64)
    requires
        d > 0,
    ensures
        q as int == div_trunc(n as int, d as int),
        n >= 0 ==> 0 <= q <= n,
        n < 0 ==> n <= q <= 0,
        d >= 2 ==> -0x4000_0000_0000_0000 <= q <= 0x4000_0000_0000_0000,
{
    let wide: i128 = n as i128;
    let dw: i128 = d as i128;
    if wide >= 0 {
        let m: u128 = (wide as u128) / (dw as u128);
        proof {
            lemma_div_pos_is_pos(wide as int, dw as int);
            lemma_div_nonincreasing(wide as int, dw as int);
            if d >= 2 {
                lemma_div_is_ordered_by_denominator(wide as int, 2, dw as int);
                lemma_div_is_ordered(wide as int, 0x7fff_ffff_ffff_ffff, 2);
            }
        }
        m as i64
    } else {
        let m: u128 = ((-wide) as u128) / (dw as u128);
        proof {
            lemma_div_pos_is_pos(-(wide as int), dw as int);
            lemma_div_nonincreasing(-(wide as int), dw as int);
            if d >= 2 {
                lemma_div_is_ordered_by_denominator(-(wide as int), 2, dw as int);
                lemma_div_is_ordered(-(wide as int), 0x8000_0000_0000_0000, 2);
            }
        }
        -(m as i128) as i64
    }
}

/// Nearest-integer division of a machine integer by a positive divisor,
/// halves rounded away from zero.
pub fn round_div_i64(n: i64, d: i64) -> (q: i64)
    requires
        d > 0,
    ensures
        q as int == round_div(n as int, d as int),
        n >= 0 ==> 0 <= q <= n,
        n < 0 ==> n <= q <= 0,
{
    let wide: i128 = n as i128;
    let dw: i128 = d as i128;
    if wide >= 0 {
        let m: u128 = ((2 * wide + dw) as u128) / ((2 * dw) as u128);
        proof {
            lemma_round_div_shrinks(wide as int, dw as int);
        }
        m as i64
    } else {
        let m: u128 = ((2 * (-wide) + dw) as u128) / ((2 * dw) as u128);
        proof {
            lemma_round_div_shrinks(-(wide as int), dw as int);
        }
        -(m as i128) as i64
    }
}

/// For nonnegative `n`, the rounded quotient `(2n + d) / (2d)` lies
/// between `0` and `n`.
proof fn lemma_round_div_shrinks(n: int, d: int)
    requires
        n >= 0,
        d > 0,
    ensures
        0 <= (2 * n + d) / (2 * d) <= n,
{
    lemma_div_pos_is_pos(2 * n + d, 2 * d);
    assert(2 * n + d <= 2 * d * n + d) by (nonlinear_arith)
        requires
            n >= 0,
            d > 0,
    ;
    lemma_div_is_ordered(2 * n + d, 2 * d * n + d, 2 * d);
    lemma_div_multiples_vanish_fancy(n, d, 2 * d);
}

/// One smoothing step on a scalar: move from `a` toward `b` by the
/// fraction `alpha / UNIT` of their difference, truncated toward zero.
/// The result never overshoots and is exact at both interpolant ends.
pub fn lerp_step(a: i64, b: i64, alpha: i64) -> (r: i64)
    requires
        0 <= alpha <= UNIT,
    ensures
        r as int == lerp_fix(a as int, b as int, alpha as int),
        alpha == 0 ==> r == a,
        alpha == UNIT ==> r == b,
        a <= b ==> a <= r <= b,
        b <= a ==> b <= r <= a,
{
    let diff: i128 = (b as i128) - (a as i128);
    proof {
        lemma_lerp_step_bounds(alpha as int, diff as int);
    }
    let prod: i128 = (alpha as i128) * diff;
    let step: i128 = if prod >= 0 {
        ((prod as u128) / (UNIT as u128)) as i128
    } else {
        -((((-prod) as u128) / (UNIT as u128)) as i128)
    };
    ((a as i128) + step) as i64
}

/// Bounds for the interpolation step: the product `alpha * diff` stays far
/// inside the 128-bit range, and its truncated quotient by `UNIT` lies
/// between `0` and `diff`, reaching `diff` exactly when `alpha == UNIT`.
proof fn lemma_lerp_step_bounds(alpha: int, diff: int)
    requires
        0 <= alpha <= UNIT,
        -0x1_0000_0000_0000_0000 <= diff <= 0x1_0000_0000_0000_0000,
    ensures
        -0x10_0000_0000_0000_0000_0000 <= alpha * diff <= 0x10_0000_0000_0000_0000_0000,
        diff >= 0 ==> 0 <= div_trunc(alpha * diff, UNIT as int) <= diff,
        diff < 0 ==> diff <= div_trunc(alpha * diff, UNIT as int) <= 0,
        alpha == UNIT ==> div_trunc(alpha * diff, UNIT as int) == diff,
{
    let u: int = UNIT as int;
    assert(-0x10_0000_0000_0000_0000_0000 <= alpha * diff <= 0x10_0000_0000_0000_0000_0000)
        by (nonlinear_arith)
        requires
            0 <= alpha <= 1_000_000,
            -0x1_0000_0000_0000_0000 <= diff <= 0x1_0000_0000_0000_0000,
    ;
    if diff >= 0 {
        assert(0 <= alpha * diff) by (nonlinear_arith)
            requires
                0 <= alpha,
                0 <= diff,
        ;
        lemma_mul_inequality(alpha, u, diff);
        lemma_div_pos_is_pos(alpha * diff, u);
        lemma_div_is_ordered(alpha * diff, u * diff, u);
        lemma_div_multiples_vanish(diff, u);
    } else {
        let m: int = -diff;
        assert(alpha * diff == -(alpha * m) && u * diff == -(u * m)) by {
            lemma_mul_unary_negation(alpha, m);
            lemma_mul_unary_negation(u, m);
        }
        assert(0 <= alpha * m) by (nonlinear_arith)
            requires
                0 <= alpha,
                0 <= m,
        ;
        lemma_mul_inequality(alpha, u, m);
        lemma_div_pos_is_pos(alpha * m, u);
        lemma_div_is_ordered(alpha * m, u * m, u);
        lemma_div_multiples_vanish(m, u);
    }
}

/// Truncating division of a wide intermediate value (a sum of products of
/// machine integers) by a positive divisor.
pub fn div_trunc_wide(n: i128, d: i64) -> (q: i128)
    requires
        d > 0,
        -0x1000_0000_0000_0000_0000_0000_0000 <= n <= 0x1000_0000_0000_0000_0000_0000_0000,
    ensures
        q as int == div_trunc(n as int, d as int),
        n >= 0 ==> 0 <= q <= n,
        n < 0 ==> n <= q <= 0,
{
    let dw: u128 = d as u128;
    if n >= 0 {
        let m: u128 = (n as u128) / dw;
        proof {
            lemma_div_pos_is_pos(n as int, d as int);
            lemma_div_nonincreasing(n as int, d as int);
        }
        m as i128
    } else {
        let m: u128 = ((-n) as u128) / dw;
        proof {
            lemma_div_pos_is_pos(-(n as int), d as int);
            lemma_div_nonincreasing(-(n as int), d as int);
        }
        -(m as i128)
    }
}

/// Interpolation is odd under joint negation of the endpoints.
proof fn lemma_lerp_fix_neg(a: int, b: int, alpha: int)
    ensures
        lerp_fix(-a, -b, alpha) == -lerp_fix(a, b, alpha),
{
    lemma_mul_unary_negation(alpha, b - a);
    assert(alpha * (-b - -a) == -(alpha * (b - a)));
}

/// Monotonicity for a nonnegative difference: a larger interpolant never
/// lands farther from the target, and moves strictly closer once the
/// interpolant difference shifts the truncated step by a whole micro-unit.
proof fn lemma_lerp_monotonic_nonneg(a: int, b: int, a1: int, a2: int)
    requires
        a <= b,
        0 <= a1 <= a2 <= UNIT,
    ensures
        a <= lerp_fix(a, b, a1) <= lerp_fix(a, b, a2) <= b,
        (a2 - a1) * (b - a) >= UNIT ==> lerp_fix(a, b, a1) < lerp_fix(a, b, a2),
{
    let u: int = UNIT as int;
    let d: int = b - a;
    lemma_mul_inequality(a1, a2, d);
    lemma_mul_inequality(a2, u, d);
    lemma_div_pos_is_pos(a1 * d, u);
    lemma_div_is_ordered(a1 * d, a2 * d, u);
    lemma_div_is_ordered(a2 * d, u * d, u);
    lemma_div_multiples_vanish(d, u);
    if (a2 - a1) * d >= u {
        lemma_mul_is_distributive_sub_other_way(d, a2, a1);
        assert(a2 * d - a1 * d >= u);
        lemma_div_plus_one(a1 * d, u);
        lemma_div_is_ordered(a1 * d + u, a2 * d, u);
    }
}

/// Law: one smoothing step never overshoots the target; for fixed
/// endpoints, a larger interpolant lands at least as close to the target,
/// and strictly closer whenever the interpolant difference moves the
/// truncated step by at least one micro-unit.
pub proof fn lemma_lerp_monotonic(a: int, b: int, a1: int, a2: int)
    requires
        0 <= a1 <= a2 <= UNIT,
    ensures
        dist(a, lerp_fix(a, b, a1)) + dist(lerp_fix(a, b, a1), b) == dist(a, b),
        dist(lerp_fix(a, b, a1), b) <= dist(a, b),
        dist(lerp_fix(a, b, a2), b) <= dist(lerp_fix(a, b, a1), b),
        (a2 - a1) * dist(a, b) >= UNIT ==> dist(lerp_fix(a, b, a2), b) < dist(
            lerp_fix(a, b, a1),
            b,
        ),
{
    if a <= b {
        lemma_lerp_monotonic_nonneg(a, b, a1, a2);
    } else {
        lemma_lerp_monotonic_nonneg(-a, -b, a1, a2);
        lemma_lerp_fix_neg(a, b, a1);
        lemma_lerp_fix_neg(a, b, a2);
    }
}

/// Composition for a nonnegative difference: see [`lemma_lerp_compose`].
proof fn lemma_lerp_compose_nonneg(a: int, b: int, a1: int, a2: int, ac: int)
    requires
        a <= b,
        0 <= a1 <= UNIT,
        0 <= a2 <= UNIT,
        0 <= ac <= UNIT,
        dist(ac * (UNIT as int), a1 * (UNIT as int) + a2 * (UNIT as int) - a1 * a2) <= UNIT,
    ensures
        dist(lerp_fix(lerp_fix(a, b, a1), b, a2), lerp_fix(a, b, ac)) <= (b - a) / (UNIT as int)
            + 2,
{
    let u: int = UNIT as int;
    let d: int = b - a;
    lemma_lerp_monotonic_nonneg(a, b, a1, a1);
    let x1: int = lerp_fix(a, b, a1);
    let d1: int = b - x1;
    lemma_lerp_monotonic_nonneg(x1, b, a2, a2);
    let x2: int = lerp_fix(x1, b, a2);
    let r2: int = b - x2;
    let xc: int = lerp_fix(a, b, ac);
    let rs: int = b - xc;
    let s1: int = (a1 * d) / u;
    let s2: int = (a2 * d1) / u;
    let sc: int = (ac * d) / u;
    assert(0 <= a1 * d && 0 <= a2 * d1 && 0 <= ac * d) by (nonlinear_arith)
        requires
            0 <= a1,
            0 <= a2,
            0 <= ac,
            0 <= d,
            0 <= d1,
    ;
    let m1: int = a1 * d - u * s1;
    let m2: int = a2 * d1 - u * s2;
    let m3: int = ac * d - u * sc;
    assert(0 <= m1 < u && 0 <= m2 < u && 0 <= m3 < u) by {
        lemma_remainder(a1 * d, u);
        lemma_remainder(a2 * d1, u);
        lemma_remainder(ac * d, u);
        lemma_mul_is_commutative(u, s1);
        lemma_mul_is_commutative(u, s2);
        lemma_mul_is_commutative(u, sc);
    }
    let e: int = ac * u - (a1 * u + a2 * u - a1 * a2);
    assert(u * d1 == (u - a1) * d + m1) by (nonlinear_arith)
        requires
            d1 == d - s1,
            m1 == a1 * d - u * s1,
    ;
    assert(u * r2 == (u - a2) * d1 + m2) by (nonlinear_arith)
        requires
            r2 == d1 - s2,
            m2 == a2 * d1 - u * s2,
    ;
    assert(u * rs == (u - ac) * d + m3) by (nonlinear_arith)
        requires
            rs == d - sc,
            m3 == ac * d - u * sc,
    ;
    assert(u * (u * r2) == (u - a2) * ((u - a1) * d) + (u - a2) * m1 + u * m2)
        by (nonlinear_arith)
        requires
            u * d1 == (u - a1) * d + m1,
            u * r2 == (u - a2) * d1 + m2,
    ;
    assert(u * (u * rs) == u * ((u - ac) * d) + u * m3) by (nonlinear_arith)
        requires
            u * rs == (u - ac) * d + m3,
    ;
    assert((u - a2) * ((u - a1) * d) - u * ((u - ac) * d) == e * d) by (nonlinear_arith)
        requires
            e == ac * u - (a1 * u + a2 * u - a1 * a2),
    ;
    assert(u * (u * r2) - u * (u * rs) == e * d + (u - a2) * m1 + u * m2 - u * m3);
    assert(-(u * d) <= e * d <= u * d) by (nonlinear_arith)
        requires
            -u <= e <= u,
            0 <= d,
    ;
    assert(0 <= (u - a2) * m1 && (u - a2) * m1 < u * u) by (nonlinear_arith)
        requires
            0 <= u - a2 <= u,
            0 <= m1 < u,
            0 < u,
    ;
    let q: int = d / u;
    lemma_div_pos_is_pos(d, u);
    lemma_remainder(d, u);
    assert(u * (u * r2) - u * (u * rs) == 1_000_000_000_000 * (r2 - rs));
    assert(q * u <= d < q * u + u) by {
        lemma_mul_is_commutative(q, u);
    }
    assert(r2 - rs <= q + 2 && rs - r2 <= q + 2);
}

/// Law: smoothing is frame-rate independent up to truncation. Two
/// successive steps with interpolants `a1` and `a2` land within
/// `dist(a, b) / UNIT + 2` micro-units of a single step whose
/// interpolant `ac` combines them as continuous exponential decay does
/// (`1 - (1-a1)(1-a2)` in units of one, here scaled to micro-units and
/// allowed one micro-unit of rounding).
pub proof fn lemma_lerp_compose(a: int, b: int, a1: int, a2: int, ac: int)
    requires
        0 <= a1 <= UNIT,
        0 <= a2 <= UNIT,
        0 <= ac <= UNIT,
        dist(ac * (UNIT as int), a1 * (UNIT as int) + a2 * (UNIT as int) - a1 * a2) <= UNIT,
    ensures
        dist(lerp_fix(lerp_fix(a, b, a1), b, a2), lerp_fix(a, b, ac)) <= dist(a, b) / (
        UNIT as int) + 2,
{
    if a <= b {
        lemma_lerp_compose_nonneg(a, b, a1, a2, ac);
    } else {
        lemma_lerp_compose_nonneg(-a, -b, a1, a2, ac);
        lemma_lerp_fix_neg(a, b, a1);
        lemma_lerp_fix_neg(lerp_fix(a, b, a1), b, a2);
        lemma_lerp_fix_neg(a, b, ac);
    }
}

/// The rounded multiple `d * round_div(n, d)` lies within half a divisor
/// of `n`.
pub proof fn lemma_round_div_near(n: int, d: int)
    requires
        d > 0,
    ensures
        2 * dist(d * round_div(n, d), n) <= d,
{
    if n >= 0 {
        lemma_round_div_near_nonneg(n, d);
    } else {
        lemma_round_div_near_nonneg(-n, d);
        lemma_mul_unary_negation(d, round_div(-n, d));
        assert(d * round_div(n, d) == -(d * round_div(-n, d)));
    }
}

/// Proximity of the rounded multiple for a nonnegative dividend.
proof fn lemma_round_div_near_nonneg(n: int, d: int)
    requires
        n >= 0,
        d > 0,
    ensures
        2 * dist(d * round_div(n, d), n) <= d,
{
    let q: int = (2 * n + d) / (2 * d);
    lemma_remainder(2 * n + d, 2 * d);
    assert((2 * d) * q == 2 * (d * q)) by {
        lemma_mul_is_associative(2, d, q);
    }
    assert(0 <= 2 * n + d - 2 * (d * q) < 2 * d);
}

/// Rounding is exact on near-multiples: when `n` sits within half a
/// divisor of the multiple `k * d`, the rounded quotient is exactly `k`.
pub proof fn lemma_round_div_multiple(k: int, r: int, d: int)
    requires
        d > 0,
        -d < 2 * r < d,
    ensures
        round_div(k * d + r, d) == k,
{
    let n: int = k * d + r;
    if n >= 0 {
        assert(2 * n + d == (2 * d) * k + (2 * r + d)) by {
            lemma_mul_is_associative(2, d, k);
            lemma_mul_is_commutative(d, k);
        }
        lemma_div_multiples_vanish_fancy(k, 2 * r + d, 2 * d);
    } else {
        assert(2 * (-n) + d == (2 * d) * (-k) + (d - 2 * r)) by {
            lemma_mul_is_associative(2, d, -k);
            lemma_mul_is_commutative(d, -k);
            lemma_mul_unary_negation(k, d);
        }
        lemma_div_multiples_vanish_fancy(-k, d - 2 * r, 2 * d);
    }
}

} // verus!
