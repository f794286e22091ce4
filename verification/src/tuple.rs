//! Homogeneous 4-component tuples: `w = 1` marks a point, `w = 0` a vector.

use crate::fx::fadd;
use crate::fx::fapprox;
use crate::fx::fdiv;
use crate::fx::fmul;
use crate::fx::fneg;
use crate::fx::fsqrt;
use crate::fx::fsub;
use crate::fx::Fx;
use crate::fx::SCALE;
use vstd::prelude::*;

verus! {

/// A homogeneous 4-tuple of fixed-point scalars.
#[derive(Clone, Copy, PartialEq, Eq, Structural, Debug)]
pub struct Tuple {
    pub x: Fx,
    pub y: Fx,
    pub z: Fx,
    pub w: Fx,
}

/// Raw dot product: `((ax·bx + ay·by) + az·bz) + aw·bw`.
pub open spec fn spec_dot(a: Tuple, b: Tuple) -> int {
    fadd(
        fadd(
            fadd(fmul(a.x.raw as int, b.x.raw as int), fmul(a.y.raw as int, b.y.raw as int)),
            fmul(a.z.raw as int, b.z.raw as int),
        ),
        fmul(a.w.raw as int, b.w.raw as int),
    )
}

/// Raw magnitude: the square root of the dot product of a tuple with itself.
pub open spec fn spec_magnitude(a: Tuple) -> int {
    fsqrt(spec_dot(a, a))
}

/// The tuple scaled component-wise by the raw scalar `s`.
pub open spec fn spec_scale(a: Tuple, s: int) -> Tuple {
    Tuple {
        x: Fx { raw: fmul(a.x.raw as int, s) as i64 },
        y: Fx { raw: fmul(a.y.raw as int, s) as i64 },
        z: Fx { raw: fmul(a.z.raw as int, s) as i64 },
        w: Fx { raw: fmul(a.w.raw as int, s) as i64 },
    }
}

/// The component-wise difference `a - b`.
pub open spec fn spec_sub(a: Tuple, b: Tuple) -> Tuple {
    Tuple {
        x: Fx { raw: fsub(a.x.raw as int, b.x.raw as int) as i64 },
        y: Fx { raw: fsub(a.y.raw as int, b.y.raw as int) as i64 },
        z: Fx { raw: fsub(a.z.raw as int, b.z.raw as int) as i64 },
        w: Fx { raw: fsub(a.w.raw as int, b.w.raw as int) as i64 },
    }
}

/// The component-wise sum `a + b`.
pub open spec fn spec_add(a: Tuple, b: Tuple) -> Tuple {
    Tuple {
        x: Fx { raw: fadd(a.x.raw as int, b.x.raw as int) as i64 },
        y: Fx { raw: fadd(a.y.raw as int, b.y.raw as int) as i64 },
        z: Fx { raw: fadd(a.z.raw as int, b.z.raw as int) as i64 },
        w: Fx { raw: fadd(a.w.raw as int, b.w.raw as int) as i64 },
    }
}

/// The component-wise negation `-a`.
pub open spec fn spec_neg(a: Tuple) -> Tuple {
    Tuple {
        x: Fx { raw: fneg(a.x.raw as int) as i64 },
        y: Fx { raw: fneg(a.y.raw as int) as i64 },
        z: Fx { raw: fneg(a.z.raw as int) as i64 },
        w: Fx { raw: fneg(a.w.raw as int) as i64 },
    }
}

/// Each component divided by the raw scalar `d` (undefined when `d == 0`).
pub open spec fn spec_div_scalar(a: Tuple, d: int) -> Tuple {
    Tuple {
        x: Fx { raw: fdiv(a.x.raw as int, d) as i64 },
        y: Fx { raw: fdiv(a.y.raw as int, d) as i64 },
        z: Fx { raw: fdiv(a.z.raw as int, d) as i64 },
        w: Fx { raw: fdiv(a.w.raw as int, d) as i64 },
    }
}

/// The tuple divided by its own magnitude; the zero tuple when the
/// magnitude rounds to zero.
pub open spec fn spec_normalize(a: Tuple) -> Tuple {
    if spec_magnitude(a) == 0 {
        Tuple { x: Fx { raw: 0 }, y: Fx { raw: 0 }, z: Fx { raw: 0 }, w: Fx { raw: 0 } }
    } else {
        spec_div_scalar(a, spec_magnitude(a))
    }
}

/// The reflection of `a` about the normal `n`: `a - n·(2·(a·n))`.
pub open spec fn spec_reflect(a: Tuple, n: Tuple) -> Tuple {
    spec_sub(a, spec_scale(spec_scale(n, 2 * SCALE as int), spec_dot(a, n)))
}

/// The cross product of the vector parts, as a vector.
pub open spec fn spec_cross(a: Tuple, b: Tuple) -> Tuple {
    Tuple {
        x: Fx {
            raw: fsub(
                fmul(a.y.raw as int, b.z.raw as int),
                fmul(a.z.raw as int, b.y.raw as int),
            ) as i64,
        },
        y: Fx {
            raw: fsub(
                fmul(a.z.raw as int, b.x.raw as int),
                fmul(a.x.raw as int, b.z.raw as int),
            ) as i64,
        },
        z: Fx {
            raw: fsub(
                fmul(a.x.raw as int, b.y.raw as int),
                fmul(a.y.raw as int, b.x.raw as int),
            ) as i64,
        },
        w: Fx { raw: 0 },
    }
}

/// Component-wise approximate equality within `EPSILON_RAW`.
pub open spec fn spec_tuple_approx(a: Tuple, b: Tuple) -> bool {
    &&& fapprox(a.x.raw as int, b.x.raw as int)
    &&& fapprox(a.y.raw as int, b.y.raw as int)
    &&& fapprox(a.z.raw as int, b.z.raw as int)
    &&& fapprox(a.w.raw as int, b.w.raw as int)
}

impl Tuple {
    /// A tuple from its four components.
    pub fn new(x: Fx, y: Fx, z: Fx, w: Fx) -> (r: Tuple)
        ensures
            r == (Tuple { x, y, z, w }),
    {
        Tuple { x, y, z, w }
    }

    /// A point: `w = 1`.
    pub fn point(x: Fx, y: Fx, z: Fx) -> (r: Tuple)
        ensures
            r == (Tuple { x, y, z, w: Fx { raw: SCALE } }),
    {
        Tuple { x, y, z, w: Fx { raw: SCALE } }
    }

    /// A vector: `w = 0`.
    pub fn vector(x: Fx, y: Fx, z: Fx) -> (r: Tuple)
        ensures
            r == (Tuple { x, y, z, w: Fx { raw: 0 } }),
    {
        Tuple { x, y, z, w: Fx { raw: 0 } }
    }

    /// Whether `w` is exactly 1.
    pub fn is_point(&self) -> (r: bool)
        ensures
            r == (self.w.raw == SCALE),
    {
        self.w.raw == SCALE
    }

    /// Whether `w` is exactly 0.
    pub fn is_vector(&self) -> (r: bool)
        ensures
            r == (self.w.raw == 0),
    {
        self.w.raw == 0
    }

    /// Component-wise sum.
    pub fn add(self, rhs: Tuple) -> (r: Tuple)
        ensures
            r == spec_add(self, rhs),
    {
        Tuple {
            x: self.x.add(rhs.x),
            y: self.y.add(rhs.y),
            z: self.z.add(rhs.z),
            w: self.w.add(rhs.w),
        }
    }

    /// Component-wise difference.
    pub fn sub(self, rhs: Tuple) -> (r: Tuple)
        ensures
            r == spec_sub(self, rhs),
    {
        Tuple {
            x: self.x.sub(rhs.x),
            y: self.y.sub(rhs.y),
            z: self.z.sub(rhs.z),
            w: self.w.sub(rhs.w),
        }
    }

    /// Component-wise negation.
    pub fn neg(self) -> (r: Tuple)
        ensures
            r == spec_neg(self),
    {
        Tuple { x: self.x.neg(), y: self.y.neg(), z: self.z.neg(), w: self.w.neg() }
    }

    /// Each component multiplied by the scalar `s`.
    pub fn scale(self, s: Fx) -> (r: Tuple)
        ensures
            r == spec_scale(self, s.raw as int),
    {
        Tuple {
            x: self.x.mul(s),
            y: self.y.mul(s),
            z: self.z.mul(s),
            w: self.w.mul(s),
        }
    }

    /// Each component divided by the non-zero scalar `d`.
    pub fn div_scalar(self, d: Fx) -> (r: Tuple)
        requires
            d.raw != 0,
        ensures
            r == spec_div_scalar(self, d.raw as int),
    {
        Tuple {
            x: self.x.div(d),
            y: self.y.div(d),
            z: self.z.div(d),
            w: self.w.div(d),
        }
    }

    /// Dot product.
    pub fn dot(self, rhs: &Tuple) -> (r: Fx)
        ensures
            r.raw as int == spec_dot(self, *rhs),
    {
        self.x.mul(rhs.x).add(self.y.mul(rhs.y)).add(self.z.mul(rhs.z)).add(self.w.mul(rhs.w))
    }

    /// Magnitude: `sqrt(x² + y² + z² + w²)`.
    pub fn magnitude(&self) -> (r: Fx)
        ensures
            r.raw as int == spec_magnitude(*self),
    {
        let a = *self;
        a.dot(&a).sqrt()
    }

    /// The tuple scaled to (approximately) unit magnitude. The magnitude
    /// must not round to zero.
    pub fn normalize(self) -> (r: Tuple)
        requires
            spec_magnitude(self) != 0,
        ensures
            r == spec_normalize(self),
    {
        let m = self.magnitude();
        self.div_scalar(m)
    }

    /// As `normalize`, but total: a degenerate tuple whose magnitude rounds
    /// to zero is sent to the zero tuple.
    pub fn normalize_or_zero(self) -> (r: Tuple)
        ensures
            r == spec_normalize(self),
    {
        let m = self.magnitude();
        if m.raw == 0 {
            Tuple { x: Fx { raw: 0 }, y: Fx { raw: 0 }, z: Fx { raw: 0 }, w: Fx { raw: 0 } }
        } else {
            self.div_scalar(m)
        }
    }

    /// The component at index `i` (x, y, z, w in order).
    pub fn get(&self, i: usize) -> (r: Fx)
        requires
            i < 4,
        ensures
            i == 0 ==> r == self.x,
            i == 1 ==> r == self.y,
            i == 2 ==> r == self.z,
            i == 3 ==> r == self.w,
    {
        if i == 0 {
            self.x
        } else if i == 1 {
            self.y
        } else if i == 2 {
            self.z
        } else {
            self.w
        }
    }

    /// Replace the component at index `i` (x, y, z, w in order).
    pub fn set(&mut self, i: usize, v: Fx)
        requires
            i < 4,
        ensures
            i == 0 ==> *final(self) == (Tuple { x: v, ..*old(self) }),
            i == 1 ==> *final(self) == (Tuple { y: v, ..*old(self) }),
            i == 2 ==> *final(self) == (Tuple { z: v, ..*old(self) }),
            i == 3 ==> *final(self) == (Tuple { w: v, ..*old(self) }),
    {
        if i == 0 {
            self.x = v;
        } else if i == 1 {
            self.y = v;
        } else if i == 2 {
            self.z = v;
        } else {
            self.w = v;
        }
    }

    /// Cross product of the vector parts.
    pub fn cross(&self, rhs: &Tuple) -> (r: Tuple)
        ensures
            r == spec_cross(*self, *rhs),
    {
        Tuple::vector(
            self.y.mul(rhs.z).sub(self.z.mul(rhs.y)),
            self.z.mul(rhs.x).sub(self.x.mul(rhs.z)),
            self.x.mul(rhs.y).sub(self.y.mul(rhs.x)),
        )
    }

    /// Reflect about the normal `n`.
    pub fn reflect(self, n: &Tuple) -> (r: Tuple)
        ensures
            r == spec_reflect(self, *n),
    {
        let two = Fx { raw: 2 * SCALE };
        self.sub(n.scale(two).scale(self.dot(n)))
    }

    /// Component-wise approximate equality within `EPSILON_RAW`.
    pub fn approx_eq(&self, rhs: &Tuple) -> (r: bool)
        ensures
            r == spec_tuple_approx(*self, *rhs),
    {
        self.x.approx_eq(rhs.x) && self.y.approx_eq(rhs.y) && self.z.approx_eq(rhs.z)
            && self.w.approx_eq(rhs.w)
    }
}

/// A point: `w = 1`.
pub fn point(x: Fx, y: Fx, z: Fx) -> (r: Tuple)
    ensures
        r == (Tuple { x, y, z, w: Fx { raw: SCALE } }),
{
    Tuple::point(x, y, z)
}

/// A vector: `w = 0`.
pub fn vector(x: Fx, y: Fx, z: Fx) -> (r: Tuple)
    ensures
        r == (Tuple { x, y, z, w: Fx { raw: 0 } }),
{
    Tuple::vector(x, y, z)
}

} // verus!
