//! RGB colors with component-wise arithmetic.

use crate::fx::fadd;
use crate::fx::fapprox;
use crate::fx::fmul;
use crate::fx::fsub;
use crate::fx::Fx;
use crate::fx::SCALE;
use vstd::prelude::*;

verus! {

/// A color as red, green and blue intensities.
#[derive(Clone, Copy, PartialEq, Eq, Structural, Debug)]
pub struct Color {
    pub red: Fx,
    pub green: Fx,
    pub blue: Fx,
}

/// The component-wise sum `a + b`.
pub open spec fn spec_color_add(a: Color, b: Color) -> Color {
    Color {
        red: Fx { raw: fadd(a.red.raw as int, b.red.raw as int) as i64 },
        green: Fx { raw: fadd(a.green.raw as int, b.green.raw as int) as i64 },
        blue: Fx { raw: fadd(a.blue.raw as int, b.blue.raw as int) as i64 },
    }
}

/// The component-wise difference `a - b`.
pub open spec fn spec_color_sub(a: Color, b: Color) -> Color {
    Color {
        red: Fx { raw: fsub(a.red.raw as int, b.red.raw as int) as i64 },
        green: Fx { raw: fsub(a.green.raw as int, b.green.raw as int) as i64 },
        blue: Fx { raw: fsub(a.blue.raw as int, b.blue.raw as int) as i64 },
    }
}

/// The component-wise (Hadamard) product `a · b`.
pub open spec fn spec_color_mul(a: Color, b: Color) -> Color {
    Color {
        red: Fx { raw: fmul(a.red.raw as int, b.red.raw as int) as i64 },
        green: Fx { raw: fmul(a.green.raw as int, b.green.raw as int) as i64 },
        blue: Fx { raw: fmul(a.blue.raw as int, b.blue.raw as int) as i64 },
    }
}

/// The color scaled component-wise by the raw scalar `s`.
pub open spec fn spec_color_scale(a: Color, s: int) -> Color {
    Color {
        red: Fx { raw: fmul(a.red.raw as int, s) as i64 },
        green: Fx { raw: fmul(a.green.raw as int, s) as i64 },
        blue: Fx { raw: fmul(a.blue.raw as int, s) as i64 },
    }
}

/// Component-wise approximate equality within `EPSILON_RAW`.
pub open spec fn spec_color_approx(a: Color, b: Color) -> bool {
    &&& fapprox(a.red.raw as int, b.red.raw as int)
    &&& fapprox(a.green.raw as int, b.green.raw as int)
    &&& fapprox(a.blue.raw as int, b.blue.raw as int)
}

/// Pure black, `(0, 0, 0)`.
pub open spec fn spec_black() -> Color {
    Color { red: Fx { raw: 0 }, green: Fx { raw: 0 }, blue: Fx { raw: 0 } }
}

/// Pure white, `(1, 1, 1)`.
pub open spec fn spec_white() -> Color {
    Color {
        red: Fx { raw: SCALE },
        green: Fx { raw: SCALE },
        blue: Fx { raw: SCALE },
    }
}

impl Color {
    /// A color from its components.
    pub fn new(red: Fx, green: Fx, blue: Fx) -> (r: Color)
        ensures
            r == (Color { red, green, blue }),
    {
        Color { red, green, blue }
    }

    /// Pure black.
    pub fn black() -> (r: Color)
        ensures
            r == spec_black(),
    {
        Color { red: Fx { raw: 0 }, green: Fx { raw: 0 }, blue: Fx { raw: 0 } }
    }

    /// Pure white.
    pub fn white() -> (r: Color)
        ensures
            r == spec_white(),
    {
        Color {
            red: Fx { raw: SCALE },
            green: Fx { raw: SCALE },
            blue: Fx { raw: SCALE },
        }
    }

    /// Pure red.
    pub fn red() -> (r: Color)
        ensures
            r == (Color { red: Fx { raw: SCALE }, green: Fx { raw: 0 }, blue: Fx { raw: 0 } }),
    {
        Color { red: Fx { raw: SCALE }, green: Fx { raw: 0 }, blue: Fx { raw: 0 } }
    }

    /// Whether every component is exactly 0.
    pub fn is_black(&self) -> (r: bool)
        ensures
            r == (*self == spec_black()),
    {
        self.red.raw == 0 && self.green.raw == 0 && self.blue.raw == 0
    }

    /// Whether every component is exactly 1.
    pub fn is_white(&self) -> (r: bool)
        ensures
            r == (*self == spec_white()),
    {
        self.red.raw == SCALE && self.green.raw == SCALE && self.blue.raw == SCALE
    }

    /// Component-wise sum.
    pub fn add(self, rhs: Color) -> (r: Color)
        ensures
            r == spec_color_add(self, rhs),
    {
        Color {
            red: self.red.add(rhs.red),
            green: self.green.add(rhs.green),
            blue: self.blue.add(rhs.blue),
        }
    }

    /// Component-wise difference.
    pub fn sub(self, rhs: Color) -> (r: Color)
        ensures
            r == spec_color_sub(self, rhs),
    {
        Color {
            red: self.red.sub(rhs.red),
            green: self.green.sub(rhs.green),
            blue: self.blue.sub(rhs.blue),
        }
    }

    /// Component-wise (Hadamard) product.
    pub fn mul(self, rhs: Color) -> (r: Color)
        ensures
            r == spec_color_mul(self, rhs),
    {
        Color {
            red: self.red.mul(rhs.red),
            green: self.green.mul(rhs.green),
            blue: self.blue.mul(rhs.blue),
        }
    }

    /// Each component multiplied by the scalar `s`.
    pub fn scale(self, s: Fx) -> (r: Color)
        ensures
            r == spec_color_scale(self, s.raw as int),
    {
        Color {
            red: self.red.mul(s),
            green: self.green.mul(s),
            blue: self.blue.mul(s),
        }
    }

    /// Component-wise approximate equality within `EPSILON_RAW`.
    pub fn approx_eq(&self, rhs: &Color) -> (r: bool)
        ensures
            r == spec_color_approx(*self, *rhs),
    {
        self.red.approx_eq(rhs.red) && self.green.approx_eq(rhs.green)
            && self.blue.approx_eq(rhs.blue)
    }
}

} // verus!
