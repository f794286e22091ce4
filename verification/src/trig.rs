//! Trigonometric functions on fixed-point scalars.
//!
//! Angles are reduced modulo 2π into `[-π, π]`, folded into `[-π/2, π/2]`
//! with the identity `sin(π - y) = sin(y)`, and evaluated with a degree-11
//! Taylor polynomial in nested (Horner) form. Cosine is taken as
//! `sin(x + π/2)` and tangent as `sin(x) / cos(x)`.

use crate::fx::abs_u128;
use crate::fx::fadd;
use crate::fx::fdiv;
use crate::fx::fdiv_n;
use crate::fx::fmul;
use crate::fx::fsub;
use crate::fx::Fx;
use crate::fx::SCALE;
use vstd::prelude::*;

verus! {

/// π in raw billionths, rounded to nearest.
pub const PI_RAW: i64 = 3_141_592_654;
/// 2π in raw billionths, rounded to nearest.
pub const TWO_PI_RAW: i64 = 6_283_185_307;
/// π/2 in raw billionths, rounded to nearest.
pub const HALF_PI_RAW: i64 = 1_570_796_327;

/// The multiple of 2π nearest to `x` (as a count of whole turns).
pub open spec fn turns(x: int) -> int {
    if x >= 0 {
        (x + PI_RAW as int) / (TWO_PI_RAW as int)
    } else {
        -((-x + PI_RAW as int) / (TWO_PI_RAW as int))
    }
}

/// `x` reduced modulo 2π into `[-π, π]`.
pub open spec fn reduce(x: int) -> int {
    x - (TWO_PI_RAW as int) * turns(x)
}

/// Fold a reduced angle into `[-π/2, π/2]`, preserving its sine.
pub open spec fn fold_quadrant(y: int) -> int {
    if y > HALF_PI_RAW as int {
        PI_RAW as int - y
    } else if y < -(HALF_PI_RAW as int) {
        -(PI_RAW as int) - y
    } else {
        y
    }
}

/// The Taylor polynomial for sine in nested form:
/// `y·(1 - z/6·(1 - z/20·(1 - z/42·(1 - z/72·(1 - z/110)))))` with `z = y²`.
pub open spec fn sin_poly(y: int) -> int {
    let z = fmul(y, y);
    let t1 = fsub(SCALE as int, fdiv_n(z, 110));
    let t2 = fsub(SCALE as int, fdiv_n(fmul(z, t1), 72));
    let t3 = fsub(SCALE as int, fdiv_n(fmul(z, t2), 42));
    let t4 = fsub(SCALE as int, fdiv_n(fmul(z, t3), 20));
    let t5 = fsub(SCALE as int, fdiv_n(fmul(z, t4), 6));
    fmul(y, t5)
}

/// Raw result of the fixed-point sine.
pub open spec fn fsin(x: int) -> int {
    sin_poly(fold_quadrant(reduce(x)))
}

/// Raw result of the fixed-point cosine.
pub open spec fn fcos(x: int) -> int {
    fsin(fadd(x, HALF_PI_RAW as int))
}

/// Raw result of the fixed-point tangent (undefined where the cosine is 0).
pub open spec fn ftan(x: int) -> int {
    fdiv(fsin(x), fcos(x))
}

/// Reduce a raw angle modulo 2π into `[-π, π]`.
fn reduce_angle(x: i64) -> (y: i64)
    ensures
        y as int == reduce(x as int),
        -(PI_RAW as int) <= y as int <= PI_RAW as int,
{
    let m = abs_u128(x);
    let qm: u128 = (m + PI_RAW as u128) / (TWO_PI_RAW as u128);
    proof {
        vstd::arithmetic::div_mod::lemma_fundamental_div_mod(
            m as int + PI_RAW as int,
            TWO_PI_RAW as int,
        );
        assert(qm as int <= 2000000000) by (nonlinear_arith)
            requires
                qm as int >= 0,
                qm as int * 6283185307int <= 0x7fffffffffffffffint + 3141592654int;
    }
    let y128: i128 = if x >= 0 {
        (x as i128) - (qm as i128) * (TWO_PI_RAW as i128)
    } else {
        (x as i128) + (qm as i128) * (TWO_PI_RAW as i128)
    };
    y128 as i64
}

impl Fx {
    /// Sine of an angle in radians.
    pub fn sin(self) -> (r: Fx)
        ensures
            r.raw as int == fsin(self.raw as int),
    {
        let y = reduce_angle(self.raw);
        let yf: Fx = if y > HALF_PI_RAW {
            Fx { raw: PI_RAW - y }
        } else if y < -HALF_PI_RAW {
            Fx { raw: -PI_RAW - y }
        } else {
            Fx { raw: y }
        };
        let one = Fx { raw: SCALE };
        let z = yf.mul(yf);
        let t1 = one.sub(z.div_n(110));
        let t2 = one.sub(z.mul(t1).div_n(72));
        let t3 = one.sub(z.mul(t2).div_n(42));
        let t4 = one.sub(z.mul(t3).div_n(20));
        let t5 = one.sub(z.mul(t4).div_n(6));
        yf.mul(t5)
    }

    /// Cosine of an angle in radians.
    pub fn cos(self) -> (r: Fx)
        ensures
            r.raw as int == fcos(self.raw as int),
    {
        self.add(Fx { raw: HALF_PI_RAW }).sin()
    }

    /// Tangent of an angle in radians; the cosine must not round to zero.
    pub fn tan(self) -> (r: Fx)
        requires
            fcos(self.raw as int) != 0,
        ensures
            r.raw as int == ftan(self.raw as int),
    {
        self.sin().div(self.cos())
    }
}

} // verus!
