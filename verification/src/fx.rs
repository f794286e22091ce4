//! Fixed-point scalars.
//!
//! A scalar is an `i64` count of billionths: the value `x` is stored as
//! `x * SCALE` with `SCALE = 10^9`. Multiplication and division round to
//! nearest (half away from zero) and saturate at `±MAX_RAW`, so every
//! operation is total and its result is pinned exactly by a spec function
//! over the raw integers.

use vstd::prelude::*;

verus! {

/// Raw units per 1.0.
pub const SCALE: i64 = 1_000_000_000;
/// Half of `SCALE`, used for rounding to nearest.
pub const HALF_SCALE: i64 = 500_000_000;
/// Saturation bound on raw values (1,000,000.0 in scalar terms).
pub const MAX_RAW: i64 = 1_000_000_000_000_000;
/// Comparison tolerance for approximate equality (0.00001).
pub const EPSILON_RAW: i64 = 10_000;

/// Absolute value over `int`.
pub open spec fn sabs(a: int) -> int {
    if a < 0 {
        -a
    } else {
        a
    }
}

/// Saturate a non-negative magnitude at `MAX_RAW`.
pub open spec fn clip_pos(n: int) -> int {
    if n > MAX_RAW as int {
        MAX_RAW as int
    } else {
        n
    }
}

/// Saturate a signed raw value into `[-MAX_RAW, MAX_RAW]`.
pub open spec fn clamp_raw(n: int) -> int {
    if n > MAX_RAW as int {
        MAX_RAW as int
    } else if n < -(MAX_RAW as int) {
        -(MAX_RAW as int)
    } else {
        n
    }
}

/// Raw result of fixed-point addition.
pub open spec fn fadd(a: int, b: int) -> int {
    clamp_raw(a + b)
}

/// Raw result of fixed-point subtraction.
pub open spec fn fsub(a: int, b: int) -> int {
    clamp_raw(a - b)
}

/// Raw result of fixed-point negation.
pub open spec fn fneg(a: int) -> int {
    clamp_raw(-a)
}

/// Raw result of fixed-point multiplication: the product of the values,
/// rounded to nearest (half away from zero) and saturated.
pub open spec fn fmul(a: int, b: int) -> int {
    let q = clip_pos((sabs(a * b) + HALF_SCALE as int) / (SCALE as int));
    if a * b >= 0 {
        q
    } else {
        -q
    }
}

/// Raw result of fixed-point division (undefined when `b == 0`): the
/// quotient of the values, rounded to nearest and saturated.
pub open spec fn fdiv(a: int, b: int) -> int {
    let q = clip_pos((sabs(a) * (SCALE as int) + sabs(b) / 2) / sabs(b));
    if (a >= 0) == (b >= 0) {
        q
    } else {
        -q
    }
}

/// Raw result of dividing by a positive integer count (not a scalar).
pub open spec fn fdiv_n(a: int, n: int) -> int {
    let q = (sabs(a) + n / 2) / n;
    if a >= 0 {
        q
    } else {
        -q
    }
}

/// `r` is the integer square root of `n`.
pub open spec fn is_isqrt(n: int, r: int) -> bool {
    0 <= r && r * r <= n && n < (r + 1) * (r + 1)
}

/// The integer square root of `n` (for `n >= 0`).
pub open spec fn isqrt(n: int) -> int {
    choose|r: int| is_isqrt(n, r)
}

/// Raw result of the fixed-point square root; zero on non-positive input.
pub open spec fn fsqrt(a: int) -> int {
    if a <= 0 {
        0
    } else {
        isqrt(a * SCALE as int)
    }
}

/// Raw result of flooring to a whole number of units (a multiple of `SCALE`).
pub open spec fn ffloor(a: int) -> int {
    clamp_raw((a / SCALE as int) * SCALE as int)
}

/// The whole-number part of a raw value, rounded toward negative infinity.
pub open spec fn funits(a: int) -> int {
    a / SCALE as int
}

/// Raw result of raising to a natural power by repeated multiplication.
pub open spec fn fpow(a: int, n: nat) -> int
    decreases n,
{
    if n == 0 {
        SCALE as int
    } else {
        fmul(fpow(a, (n - 1) as nat), a)
    }
}

/// Approximate equality of raw values: within `EPSILON_RAW`.
pub open spec fn fapprox(a: int, b: int) -> bool {
    sabs(a - b) < EPSILON_RAW as int
}

/// A fixed-point scalar: `raw` billionths.
#[derive(Clone, Copy, PartialEq, Eq, Structural, Debug)]
pub struct Fx {
    pub raw: i64,
}

proof fn lemma_mul_signs(a: int, b: int)
    by (nonlinear_arith)
    ensures
        a >= 0 && b >= 0 ==> a * b >= 0,
        a <= 0 && b <= 0 ==> a * b >= 0,
        a >= 0 && b <= 0 ==> a * b <= 0,
        a <= 0 && b >= 0 ==> a * b <= 0,
        (-a) * b == -(a * b),
        a * (-b) == -(a * b),
        (-a) * (-b) == a * b,
{
}

proof fn lemma_abs_mul(a: int, b: int)
    ensures
        sabs(a * b) == sabs(a) * sabs(b),
{
    lemma_mul_signs(a, b);
}

proof fn lemma_mul_bound(a: int, b: int, c: int, d: int)
    by (nonlinear_arith)
    requires
        0 <= a <= c,
        0 <= b <= d,
    ensures
        a * b <= c * d,
{
}

/// Integer square roots are unique.
proof fn lemma_isqrt_unique(n: int, r1: int, r2: int)
    by (nonlinear_arith)
    requires
        is_isqrt(n, r1),
        is_isqrt(n, r2),
    ensures
        r1 == r2,
{
}

/// Every non-negative integer has an integer square root, so `isqrt(n)`
/// satisfies its characterization.
pub proof fn lemma_isqrt_exists(n: int)
    requires
        n >= 0,
    ensures
        is_isqrt(n, isqrt(n)),
    decreases n,
{
    if n == 0 {
        assert(is_isqrt(0, 0));
    } else {
        lemma_isqrt_exists(n - 1);
        let r = isqrt(n - 1);
        if n < (r + 1) * (r + 1) {
            assert(is_isqrt(n, r));
        } else {
            assert(n == (r + 1) * (r + 1));
            assert((r + 1) * (r + 1) < (r + 2) * (r + 2)) by (nonlinear_arith)
                requires
                    r >= 0;
            assert(is_isqrt(n, r + 1));
        }
    }
}

/// The magnitude of a raw value, as a wide unsigned integer.
pub(crate) fn abs_u128(a: i64) -> (r: u128)
    ensures
        r as int == sabs(a as int),
{
    if a >= 0 {
        a as u128
    } else {
        let w: i128 = -(a as i128);
        w as u128
    }
}

/// Saturate a non-negative wide magnitude at `MAX_RAW`.
fn clip_u128(m: u128) -> (r: u128)
    ensures
        r as int == clip_pos(m as int),
{
    if m > MAX_RAW as u128 {
        MAX_RAW as u128
    } else {
        m
    }
}

/// Reapply a sign to a non-negative magnitude.
fn apply_sign(neg: bool, q: u128) -> (r: i64)
    requires
        !neg ==> q < 0x8000000000000000,
        neg ==> q <= 0x8000000000000000,
    ensures
        r as int == if neg {
            -(q as int)
        } else {
            q as int
        },
{
    if neg {
        let w: i128 = -(q as i128);
        w as i64
    } else {
        q as i64
    }
}

/// Integer square root by binary search: the greatest `r` with `r*r <= n`.
fn isqrt_u128(n: u128) -> (r: u128)
    ensures
        is_isqrt(n as int, r as int),
{
    let mut lo: u128 = 0;
    let mut hi: u128 = 1u128 << 64;
    proof {
        assert((1u128 << 64) == 0x10000000000000000u128) by (bit_vector);
        assert(0x10000000000000000u128 as int * 0x10000000000000000u128 as int > n as int) by (nonlinear_arith)
            requires
                n as int <= u128::MAX as int;
    }
    while lo + 1 < hi
        invariant
            0 <= lo < hi <= 0x10000000000000000u128,
            (lo as int) * (lo as int) <= n as int,
            (hi as int) * (hi as int) > n as int,
        decreases hi - lo,
    {
        let mid: u128 = lo + (hi - lo) / 2;
        proof {
            assert((mid as int) * (mid as int) < 0xffffffffffffffffffffffffffffffffu128 as int + 1)
                by (nonlinear_arith)
                requires
                    0 <= mid as int,
                    (mid as int) < 0x10000000000000000u128 as int;
        }
        if mid * mid <= n {
            lo = mid;
        } else {
            hi = mid;
        }
    }
    lo
}

impl Fx {
    /// The scalar 0.0.
    pub fn zero() -> (r: Fx)
        ensures
            r.raw == 0,
    {
        Fx { raw: 0 }
    }

    /// The scalar 1.0.
    pub fn one() -> (r: Fx)
        ensures
            r.raw == SCALE,
    {
        Fx { raw: SCALE }
    }

    /// The scalar with the given raw count of billionths (saturated).
    pub fn from_raw(raw: i64) -> (r: Fx)
        ensures
            r.raw as int == clamp_raw(raw as int),
    {
        if raw > MAX_RAW {
            Fx { raw: MAX_RAW }
        } else if raw < -MAX_RAW {
            Fx { raw: -MAX_RAW }
        } else {
            Fx { raw }
        }
    }

    /// The scalar equal to the given whole number (saturated).
    pub fn from_int(i: i64) -> (r: Fx)
        ensures
            r.raw as int == clamp_raw(i as int * SCALE as int),
    {
        let w: i128 = (i as i128) * (SCALE as i128);
        if w > MAX_RAW as i128 {
            Fx { raw: MAX_RAW }
        } else if w < -(MAX_RAW as i128) {
            Fx { raw: -MAX_RAW }
        } else {
            Fx { raw: w as i64 }
        }
    }

    /// Addition, saturated.
    pub fn add(self, rhs: Fx) -> (r: Fx)
        ensures
            r.raw as int == fadd(self.raw as int, rhs.raw as int),
    {
        let w: i128 = (self.raw as i128) + (rhs.raw as i128);
        if w > MAX_RAW as i128 {
            Fx { raw: MAX_RAW }
        } else if w < -(MAX_RAW as i128) {
            Fx { raw: -MAX_RAW }
        } else {
            Fx { raw: w as i64 }
        }
    }

    /// Subtraction, saturated.
    pub fn sub(self, rhs: Fx) -> (r: Fx)
        ensures
            r.raw as int == fsub(self.raw as int, rhs.raw as int),
    {
        let w: i128 = (self.raw as i128) - (rhs.raw as i128);
        if w > MAX_RAW as i128 {
            Fx { raw: MAX_RAW }
        } else if w < -(MAX_RAW as i128) {
            Fx { raw: -MAX_RAW }
        } else {
            Fx { raw: w as i64 }
        }
    }

    /// Negation, saturated.
    pub fn neg(self) -> (r: Fx)
        ensures
            r.raw as int == fneg(self.raw as int),
    {
        let w: i128 = -(self.raw as i128);
        if w > MAX_RAW as i128 {
            Fx { raw: MAX_RAW }
        } else if w < -(MAX_RAW as i128) {
            Fx { raw: -MAX_RAW }
        } else {
            Fx { raw: w as i64 }
        }
    }

    /// Absolute value, saturated.
    pub fn abs(self) -> (r: Fx)
        ensures
            r.raw as int == clamp_raw(sabs(self.raw as int)),
    {
        if self.raw >= 0 {
            Fx::from_raw(self.raw)
        } else {
            self.neg()
        }
    }

    /// Multiplication, rounded to nearest and saturated.
    pub fn mul(self, rhs: Fx) -> (r: Fx)
        ensures
            r.raw as int == fmul(self.raw as int, rhs.raw as int),
    {
        let a = self.raw;
        let b = rhs.raw;
        let neg: bool = (a < 0) != (b < 0);
        let ma = abs_u128(a);
        let mb = abs_u128(b);
        proof {
            lemma_abs_mul(a as int, b as int);
            lemma_mul_signs(a as int, b as int);
            lemma_mul_bound(ma as int, mb as int, 0x8000000000000000, 0x8000000000000000);
        }
        let m: u128 = ma * mb;
        let q: u128 = clip_u128((m + HALF_SCALE as u128) / (SCALE as u128));
        proof {
            if a as int * b as int == 0 {
                assert(m == 0);
                assert((HALF_SCALE as int) / (SCALE as int) == 0);
            }
        }
        Fx { raw: apply_sign(neg, q) }
    }

    /// Division, rounded to nearest and saturated. The divisor must be
    /// non-zero.
    pub fn div(self, rhs: Fx) -> (r: Fx)
        requires
            rhs.raw != 0,
        ensures
            r.raw as int == fdiv(self.raw as int, rhs.raw as int),
    {
        let a = self.raw;
        let b = rhs.raw;
        let neg: bool = (a < 0) != (b < 0);
        let ma = abs_u128(a);
        let mb = abs_u128(b);
        proof {
            lemma_mul_bound(ma as int, SCALE as int, 0x8000000000000000, SCALE as int);
        }
        let q: u128 = clip_u128((ma * (SCALE as u128) + mb / 2) / mb);
        proof {
            if a == 0 {
                assert(ma == 0);
                assert((mb as int / 2) < mb as int);
                assert((mb as int / 2) / (mb as int) == 0) by (nonlinear_arith)
                    requires
                        0 <= (mb as int) / 2,
                        (mb as int) / 2 < mb as int;
            }
        }
        Fx { raw: apply_sign(neg, q) }
    }

    /// Division by a positive integer count, rounded to nearest.
    pub fn div_n(self, n: i64) -> (r: Fx)
        requires
            n > 0,
        ensures
            r.raw as int == fdiv_n(self.raw as int, n as int),
    {
        let ma = abs_u128(self.raw);
        let q: u128 = (ma + (n as u128) / 2) / (n as u128);
        proof {
            assert(q as int <= ma as int) by (nonlinear_arith)
                requires
                    q as int == (ma as int + n as int / 2) / n as int,
                    n as int >= 1,
                    ma as int >= 0;
        }
        Fx { raw: apply_sign(self.raw < 0, q) }
    }

    /// Square root, rounded down to the nearest billionth; zero on
    /// non-positive input.
    pub fn sqrt(self) -> (r: Fx)
        ensures
            r.raw as int == fsqrt(self.raw as int),
            r.raw >= 0,
    {
        if self.raw <= 0 {
            Fx { raw: 0 }
        } else {
            proof {
                lemma_mul_bound(
                    self.raw as int,
                    SCALE as int,
                    0x7fffffffffffffff,
                    SCALE as int,
                );
            }
            let n: u128 = (self.raw as u128) * (SCALE as u128);
            let q = isqrt_u128(n);
            proof {
                let root = isqrt(n as int);
                assert(is_isqrt(n as int, root)) by {
                    assert(is_isqrt(n as int, q as int));
                }
                lemma_isqrt_unique(n as int, q as int, root);
                assert(q as int * q as int <= n as int);
                assert(q as int <= 97000000000000) by (nonlinear_arith)
                    requires
                        q as int >= 0,
                        q as int * q as int <= 0x7fffffffffffffffint * 1000000000int;
            }
            Fx { raw: q as i64 }
        }
    }

    /// Floor to a whole number of units.
    pub fn floor(self) -> (r: Fx)
        ensures
            r.raw as int == ffloor(self.raw as int),
    {
        let u = self.floor_units();
        let w: i128 = (u as i128) * (SCALE as i128);
        proof {
            vstd::arithmetic::div_mod::lemma_fundamental_div_mod(self.raw as int, SCALE as int);
        }
        if w > MAX_RAW as i128 {
            Fx { raw: MAX_RAW }
        } else if w < -(MAX_RAW as i128) {
            Fx { raw: -MAX_RAW }
        } else {
            Fx { raw: w as i64 }
        }
    }

    /// The whole-number part, rounded toward negative infinity.
    pub fn floor_units(self) -> (r: i64)
        ensures
            r as int == funits(self.raw as int),
            -10_000_000_000 <= r <= 10_000_000_000,
    {
        if self.raw >= 0 {
            let q = (self.raw as u64) / (SCALE as u64);
            q as i64
        } else {
            let m: u64 = (-(self.raw as i128)) as u64;
            let q: u64 = (m + (SCALE as u64 - 1)) / (SCALE as u64);
            proof {
                vstd::arithmetic::div_mod::lemma_fundamental_div_mod(m as int, SCALE as int);
                vstd::arithmetic::div_mod::lemma_fundamental_div_mod(
                    m as int + SCALE as int - 1,
                    SCALE as int,
                );
                vstd::arithmetic::div_mod::lemma_fundamental_div_mod(
                    -(m as int),
                    SCALE as int,
                );
            }
            -(q as i64)
        }
    }

    /// Raise to a natural power by repeated multiplication.
    pub fn powi(self, n: u64) -> (r: Fx)
        ensures
            r.raw as int == fpow(self.raw as int, n as nat),
    {
        let mut acc = Fx { raw: SCALE };
        let mut i: u64 = 0;
        while i < n
            invariant
                0 <= i <= n,
                acc.raw as int == fpow(self.raw as int, i as nat),
            decreases n - i,
    {
            acc = acc.mul(self);
            i = i + 1;
        }
        acc
    }

    /// Approximate equality: the values differ by less than `EPSILON_RAW`.
    pub fn approx_eq(self, rhs: Fx) -> (r: bool)
        ensures
            r == fapprox(self.raw as int, rhs.raw as int),
    {
        let d: i128 = (self.raw as i128) - (rhs.raw as i128);
        let m: i128 = if d < 0 {
            -d
        } else {
            d
        };
        m < EPSILON_RAW as i128
    }
}

} // verus!
