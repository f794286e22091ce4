//! Laws of the library, stated and proved over the same spec functions the
//! executable contracts use.
//!
//! Fixed-point rounding means the inverse of a general matrix is only
//! approximately an inverse; for translation matrices every step of the
//! cofactor inverse is exact, so the inverse and round-trip laws hold
//! exactly there, with bounds that keep the arithmetic out of saturation.

use crate::fx::fapprox;
use crate::fx::fdiv;
use crate::fx::fmul;
use crate::fx::fneg;
use crate::fx::sabs;
use crate::fx::Fx;
use crate::fx::EPSILON_RAW;
use crate::fx::HALF_SCALE;
use crate::fx::MAX_RAW;
use crate::fx::SCALE;
use crate::matrix::spec_identity4;
use crate::matrix::spec_inverse4;
use crate::matrix::spec_invertible;
use crate::matrix::spec_matmul4;
use crate::matrix::spec_translation;
use crate::ray::spec_ray_transform;
use crate::ray::Ray;
use crate::tuple::spec_dot;
use crate::tuple::spec_magnitude;
use crate::tuple::spec_normalize;
use crate::tuple::Tuple;
use vstd::arithmetic::div_mod::lemma_fundamental_div_mod_converse;
use vstd::prelude::*;

verus! {

/// Multiplying by 0.0 gives exactly 0.
pub broadcast proof fn lemma_fmul_zero_right(a: int)
    ensures
        #[trigger] fmul(a, 0) == 0,
{
}

/// Multiplying 0.0 by anything gives exactly 0.
pub broadcast proof fn lemma_fmul_zero_left(a: int)
    ensures
        #[trigger] fmul(0, a) == 0,
{
}

/// Multiplying an in-range value by 1.0 is exact.
pub broadcast proof fn lemma_fmul_one_right(a: int)
    requires
        -MAX_RAW <= a <= MAX_RAW,
    ensures
        #[trigger] fmul(a, SCALE as int) == a,
{
    if a >= 0 {
        lemma_fundamental_div_mod_converse(
            a * SCALE + HALF_SCALE as int,
            SCALE as int,
            a,
            HALF_SCALE as int,
        );
    } else {
        lemma_fundamental_div_mod_converse(
            (-a) * SCALE + HALF_SCALE as int,
            SCALE as int,
            -a,
            HALF_SCALE as int,
        );
        assert(sabs(a * SCALE as int) == (-a) * SCALE);
    }
}

/// Multiplying 1.0 by an in-range value is exact.
pub broadcast proof fn lemma_fmul_one_left(a: int)
    requires
        -MAX_RAW <= a <= MAX_RAW,
    ensures
        #[trigger] fmul(SCALE as int, a) == a,
{
    lemma_fmul_one_right(a);
    assert(SCALE as int * a == a * SCALE as int) by (nonlinear_arith);
    assert(fmul(SCALE as int, a) == fmul(a, SCALE as int));
}

/// Dividing an in-range value by 1.0 is exact.
pub broadcast proof fn lemma_fdiv_one(a: int)
    requires
        -MAX_RAW <= a <= MAX_RAW,
    ensures
        #[trigger] fdiv(a, SCALE as int) == a,
{
    lemma_fundamental_div_mod_converse(
        sabs(a) * SCALE + HALF_SCALE as int,
        SCALE as int,
        sabs(a),
        HALF_SCALE as int,
    );
}

/// The determinant of a translation matrix is exactly 1, so a translation
/// is always invertible.
pub proof fn lemma_translation_det(x: Fx, y: Fx, z: Fx)
    requires
        sabs(x.raw as int) <= MAX_RAW as int,
        sabs(y.raw as int) <= MAX_RAW as int,
        sabs(z.raw as int) <= MAX_RAW as int,
    ensures
        crate::matrix::spec_det4(spec_translation(x, y, z)) == SCALE,
        spec_invertible(spec_translation(x, y, z)),
{
    broadcast use lemma_fmul_zero_right;
    broadcast use lemma_fmul_zero_left;
    broadcast use lemma_fmul_one_right;
    broadcast use lemma_fmul_one_left;
}

/// The cofactor inverse of a translation is exactly the opposite
/// translation.
pub proof fn lemma_translation_inverse(x: Fx, y: Fx, z: Fx)
    requires
        sabs(x.raw as int) <= MAX_RAW as int,
        sabs(y.raw as int) <= MAX_RAW as int,
        sabs(z.raw as int) <= MAX_RAW as int,
    ensures
        spec_inverse4(spec_translation(x, y, z)) == spec_translation(
            Fx { raw: fneg(x.raw as int) as i64 },
            Fx { raw: fneg(y.raw as int) as i64 },
            Fx { raw: fneg(z.raw as int) as i64 },
        ),
{
    broadcast use lemma_fmul_zero_right;
    broadcast use lemma_fmul_zero_left;
    broadcast use lemma_fmul_one_right;
    broadcast use lemma_fmul_one_left;
    broadcast use lemma_fdiv_one;
    lemma_translation_det(x, y, z);
}

/// A translation times its cofactor inverse is exactly the identity: the
/// inverse law `M * M⁻¹ == I`, on the translation transforms, where the
/// fixed-point arithmetic is exact.
#[verifier::rlimit(100)]
pub proof fn lemma_translation_times_inverse(x: Fx, y: Fx, z: Fx)
    requires
        sabs(x.raw as int) <= MAX_RAW as int,
        sabs(y.raw as int) <= MAX_RAW as int,
        sabs(z.raw as int) <= MAX_RAW as int,
    ensures
        spec_matmul4(
            spec_translation(x, y, z),
            spec_inverse4(spec_translation(x, y, z)),
        ) == spec_identity4(),
{
    broadcast use lemma_fmul_zero_right;
    broadcast use lemma_fmul_zero_left;
    broadcast use lemma_fmul_one_right;
    broadcast use lemma_fmul_one_left;
    lemma_translation_inverse(x, y, z);
}

/// Round trip: transforming a ray by a translation and then by that
/// translation's cofactor inverse restores the original ray exactly, as
/// long as nothing saturates along the way.
#[verifier::rlimit(100)]
pub proof fn lemma_ray_translation_round_trip(r: Ray, x: Fx, y: Fx, z: Fx)
    requires
        r.origin.w.raw == SCALE,
        r.direction.w.raw == 0,
        sabs(r.origin.x.raw as int) <= MAX_RAW as int / 2,
        sabs(r.origin.y.raw as int) <= MAX_RAW as int / 2,
        sabs(r.origin.z.raw as int) <= MAX_RAW as int / 2,
        sabs(r.direction.x.raw as int) <= MAX_RAW as int,
        sabs(r.direction.y.raw as int) <= MAX_RAW as int,
        sabs(r.direction.z.raw as int) <= MAX_RAW as int,
        sabs(x.raw as int) <= MAX_RAW as int / 2,
        sabs(y.raw as int) <= MAX_RAW as int / 2,
        sabs(z.raw as int) <= MAX_RAW as int / 2,
    ensures
        spec_ray_transform(
            spec_ray_transform(r, spec_translation(x, y, z)),
            spec_inverse4(spec_translation(x, y, z)),
        ) == r,
{
    broadcast use lemma_fmul_zero_right;
    broadcast use lemma_fmul_zero_left;
    broadcast use lemma_fmul_one_right;
    broadcast use lemma_fmul_one_left;
    lemma_translation_inverse(x, y, z);
}

/// The fixed-point square of an in-range value: non-negative, unsaturated,
/// and within half a unit of the true product.
proof fn lemma_fmul_sq(x: int)
    requires
        sabs(x) <= 300_000_000_000,
    ensures
        fmul(x, x) >= 0,
        fmul(x, x) <= 90_000_000_000_001,
        sabs(fmul(x, x) * SCALE - x * x) <= HALF_SCALE,
{
    assert(x * x >= 0 && x * x <= 90_000_000_000_000_000_000_000) by (nonlinear_arith)
        requires
            -300_000_000_000 <= x <= 300_000_000_000;
    let p = x * x;
    vstd::arithmetic::div_mod::lemma_fundamental_div_mod(p + HALF_SCALE as int, SCALE as int);
}

/// Fixed-point division by a magnitude `m` of a value no bigger than
/// `m + 11`: the quotient stays near one and rounds within `m / 2`.
proof fn lemma_fdiv_round(x: int, m: int)
    requires
        m >= 100_000_000,
        sabs(x) <= m + 11,
    ensures
        sabs(fdiv(x, m)) <= 1_000_000_111,
        sabs(fdiv(x, m) * m - x * SCALE) <= m / 2,
{
    let ax = sabs(x);
    vstd::arithmetic::div_mod::lemma_fundamental_div_mod(ax * SCALE + m / 2, m);
    let q = (ax * SCALE + m / 2) / m;
    assert(q >= 0) by (nonlinear_arith)
        requires
            m >= 1,
            q * m >= -(m / 2),
            q == (ax * SCALE + m / 2) / m,
            ax * SCALE + m / 2 >= 0;
    assert(q <= 1_000_000_111) by (nonlinear_arith)
        requires
            m >= 100_000_000,
            q * m <= m * 1_000_000_000 + 11_000_000_000 + m,
            q >= 0;
    if x >= 0 {
    } else {
        assert((-q) * m == -(q * m)) by (nonlinear_arith);
    }
}

/// The gap between a rounded-quotient square and the true square, scaled:
/// `|u²m² - x²S²| <= m²(S + 111)` when `u·m` tracks `x·S` within `m / 2`.
proof fn lemma_sq_err(u: int, x: int, m: int, h: int)
    requires
        m >= 100_000_000,
        h >= 0,
        2 * h <= m,
        sabs(u * m - x * SCALE) <= h,
        sabs(u) <= 1_000_000_111,
        sabs(x) <= m + 11,
    ensures
        sabs((u * u) * (m * m) - (x * x) * 1_000_000_000_000_000_000) <= (m * m)
            * 1_000_000_111,
{
    let e = u * m - x * SCALE as int;
    let s = u * m + x * SCALE as int;
    assert((u * u) * (m * m) - (x * x) * 1_000_000_000_000_000_000 == e * s)
        by (nonlinear_arith)
        requires
            e == u * m - x * 1_000_000_000,
            s == u * m + x * 1_000_000_000;
    let cap = 2 * m * 1_000_000_000 + 221 * m;
    assert(sabs(s) <= cap);
    assert(sabs(e * s) <= h * cap) by (nonlinear_arith)
        requires
            -h <= e <= h,
            -cap <= s <= cap,
            h >= 0,
            cap >= 0;
    assert(h * cap <= (m * m) * 1_000_000_111) by (nonlinear_arith)
        requires
            2 * h <= m,
            h >= 0,
            m >= 0,
            cap == 2 * m * 1_000_000_000 + 221 * m;
}

/// Normalizing scales the magnitude to within epsilon of 1: for any vector
/// whose magnitude is at least 0.1 and whose components are at most 300 in
/// size, `normalize(v)` has magnitude 1 up to `EPSILON_RAW`. (A smaller
/// vector loses too much of its square to rounding for the bound to hold.)
pub proof fn lemma_normalize_unit_magnitude(v: Tuple)
    requires
        spec_magnitude(v) >= 100_000_000,
        sabs(v.x.raw as int) <= 300_000_000_000,
        sabs(v.y.raw as int) <= 300_000_000_000,
        sabs(v.z.raw as int) <= 300_000_000_000,
        sabs(v.w.raw as int) <= 300_000_000_000,
    ensures
        fapprox(spec_magnitude(spec_normalize(v)), SCALE as int),
{
    let x1 = v.x.raw as int;
    let x2 = v.y.raw as int;
    let x3 = v.z.raw as int;
    let x4 = v.w.raw as int;
    lemma_fmul_sq(x1);
    lemma_fmul_sq(x2);
    lemma_fmul_sq(x3);
    lemma_fmul_sq(x4);
    let d = spec_dot(v, v);
    assert(d == fmul(x1, x1) + fmul(x2, x2) + fmul(x3, x3) + fmul(x4, x4));
    let q = x1 * x1 + x2 * x2 + x3 * x3 + x4 * x4;
    assert(sabs(d * SCALE - q) <= 2 * SCALE);
    let m = spec_magnitude(v);
    assert(d > 0);
    crate::fx::lemma_isqrt_exists(d * SCALE as int);
    assert(crate::fx::is_isqrt(d * SCALE as int, m));
    assert((m + 1) * (m + 1) == m * m + 2 * m + 1) by (nonlinear_arith);
    assert(d * SCALE <= m * m + 2 * m);
    assert(q <= m * m + 2 * m + 2 * SCALE);
    assert(q >= m * m - 2 * SCALE);
    assert(d <= 360_000_000_000_004);
    assert(m * m <= 370_000_000_000_000_000_000_000);
    assert(m <= 610_000_000_000) by (nonlinear_arith)
        requires
            m >= 0,
            m * m <= 370_000_000_000_000_000_000_000;
    assert((m + 11) * (m + 11) == m * m + 22 * m + 121) by (nonlinear_arith);
    assert(x1 * x1 >= 0 && x2 * x2 >= 0 && x3 * x3 >= 0 && x4 * x4 >= 0) by (nonlinear_arith);
    assert(sabs(x1) <= m + 11 && sabs(x2) <= m + 11 && sabs(x3) <= m + 11 && sabs(x4) <= m
        + 11) by (nonlinear_arith)
        requires
            x1 * x1 <= m * m + 22 * m + 121,
            x2 * x2 <= m * m + 22 * m + 121,
            x3 * x3 <= m * m + 22 * m + 121,
            x4 * x4 <= m * m + 22 * m + 121,
            m >= 0;
    let u = spec_normalize(v);
    let u1 = fdiv(x1, m);
    let u2 = fdiv(x2, m);
    let u3 = fdiv(x3, m);
    let u4 = fdiv(x4, m);
    lemma_fdiv_round(x1, m);
    lemma_fdiv_round(x2, m);
    lemma_fdiv_round(x3, m);
    lemma_fdiv_round(x4, m);
    assert(u.x.raw == u1 && u.y.raw == u2 && u.z.raw == u3 && u.w.raw == u4);
    lemma_sq_err(u1, x1, m, m / 2);
    lemma_sq_err(u2, x2, m, m / 2);
    lemma_sq_err(u3, x3, m, m / 2);
    lemma_sq_err(u4, x4, m, m / 2);
    lemma_fmul_sq(u1);
    lemma_fmul_sq(u2);
    lemma_fmul_sq(u3);
    lemma_fmul_sq(u4);
    let t = spec_dot(u, u);
    assert(t == fmul(u1, u1) + fmul(u2, u2) + fmul(u3, u3) + fmul(u4, u4));
    let sum_u = u1 * u1 + u2 * u2 + u3 * u3 + u4 * u4;
    assert(sabs(t * SCALE - sum_u) <= 2 * SCALE);
    let mm = m * m;
    assert(sum_u * mm == (u1 * u1) * mm + (u2 * u2) * mm + (u3 * u3) * mm + (u4 * u4) * mm)
        by (nonlinear_arith)
        requires
            sum_u == u1 * u1 + u2 * u2 + u3 * u3 + u4 * u4,
            mm == m * m;
    let e1 = (u1 * u1) * mm - (x1 * x1) * 1_000_000_000_000_000_000;
    let e2 = (u2 * u2) * mm - (x2 * x2) * 1_000_000_000_000_000_000;
    let e3 = (u3 * u3) * mm - (x3 * x3) * 1_000_000_000_000_000_000;
    let e4 = (u4 * u4) * mm - (x4 * x4) * 1_000_000_000_000_000_000;
    assert(sabs(e1) <= mm * 1_000_000_111);
    assert(sabs(e2) <= mm * 1_000_000_111);
    assert(sabs(e3) <= mm * 1_000_000_111);
    assert(sabs(e4) <= mm * 1_000_000_111);
    assert(sum_u * mm - q * 1_000_000_000_000_000_000 == e1 + e2 + e3 + e4);
    assert(sabs(sum_u * mm - q * 1_000_000_000_000_000_000) <= mm * 4_000_000_444) by {
        assert(e1 <= mm * 1_000_000_111 && -(mm * 1_000_000_111) <= e1);
        assert(e2 <= mm * 1_000_000_111 && -(mm * 1_000_000_111) <= e2);
        assert(e3 <= mm * 1_000_000_111 && -(mm * 1_000_000_111) <= e3);
        assert(e4 <= mm * 1_000_000_111 && -(mm * 1_000_000_111) <= e4);
        assert(mm * 4_000_000_444 == mm * 1_000_000_111 + mm * 1_000_000_111 + mm
            * 1_000_000_111 + mm * 1_000_000_111) by (nonlinear_arith);
    }
    assert(mm >= 10_000_000_000_000_000) by (nonlinear_arith)
        requires
            m >= 100_000_000,
            mm == m * m;
    assert(mm <= 400_000_000_000_000_000_000_000) by (nonlinear_arith)
        requires
            0 <= m,
            m <= 610_000_000_000,
            mm == m * m;
    assert(q * 1_000_000_000_000_000_000 <= mm * 1_000_000_000_000_000_000 + (2 * m + 2
        * SCALE) * 1_000_000_000_000_000_000);
    assert(q * 1_000_000_000_000_000_000 >= mm * 1_000_000_000_000_000_000 - 2 * SCALE
        * 1_000_000_000_000_000_000);
    // upper bound: t * SCALE <= SCALE * SCALE + 400_000_000_000
    assert(t * SCALE <= 1_000_000_000_000_000_000 + 400_000_000_000) by (nonlinear_arith)
        requires
            t * SCALE <= sum_u + 2 * SCALE,
            sum_u * mm <= q * 1_000_000_000_000_000_000 + mm * 4_000_000_444,
            q * 1_000_000_000_000_000_000 <= mm * 1_000_000_000_000_000_000 + (2 * m + 2
                * 1_000_000_000) * 1_000_000_000_000_000_000,
            100_000_000 <= m,
            m <= 610_000_000_000,
            mm == m * m;
    // lower bound: t * SCALE >= SCALE * SCALE - 400_000_000_000
    assert(t * SCALE >= 1_000_000_000_000_000_000 - 400_000_000_000) by (nonlinear_arith)
        requires
            t * SCALE >= sum_u - 2 * SCALE,
            sum_u * mm >= q * 1_000_000_000_000_000_000 - mm * 4_000_000_444,
            q * 1_000_000_000_000_000_000 >= mm * 1_000_000_000_000_000_000 - 2
                * 1_000_000_000 * 1_000_000_000_000_000_000,
            100_000_000 <= m,
            m <= 610_000_000_000,
            mm == m * m;
    assert(t > 0);
    crate::fx::lemma_isqrt_exists(t * SCALE as int);
    let g = spec_magnitude(u);
    assert(crate::fx::is_isqrt(t * SCALE as int, g));
    assert(g <= SCALE + 200) by (nonlinear_arith)
        requires
            g >= 0,
            g * g <= 1_000_000_000_000_000_000 + 400_000_000_000;
    assert(g >= SCALE - 201) by (nonlinear_arith)
        requires
            g >= 0,
            (g + 1) * (g + 1) > 1_000_000_000_000_000_000 - 400_000_000_000;
    assert(sabs(g - SCALE) < EPSILON_RAW);
}

} // verus!
