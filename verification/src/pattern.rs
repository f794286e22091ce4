//! Procedural patterns: a closed set of texture functions from a local
//! point to a color, each carrying its own affine transform.

use crate::color::spec_color_add;
use crate::color::spec_color_scale;
use crate::color::spec_color_sub;
use crate::color::Color;
use crate::fx::abs_u128;
use crate::fx::fadd;
use crate::fx::ffloor;
use crate::fx::fmul;
use crate::fx::fsqrt;
use crate::fx::fsub;
use crate::fx::funits;
use crate::fx::sabs;
use crate::fx::Fx;
use crate::fx::HALF_SCALE;
use crate::fx::SCALE;
use crate::matrix::spec_inverse4;
use crate::matrix::spec_invertible;
use crate::matrix::spec_mat_tuple;
use crate::matrix::Matrix4;
use crate::tuple::Tuple;
use vstd::prelude::*;

verus! {

/// A pattern: a texture variant plus its own transform.
#[derive(Debug)]
pub struct Pattern {
    pub pattern: Patterns,
    pub transform: Matrix4,
}

/// The closed set of texture variants.
#[derive(Debug)]
pub enum Patterns {
    Blended(Blended),
    Checkers(Checkers),
    Gradient(Gradient),
    RadialGradient(RadialGradient),
    Ring(Ring),
    Solid(Color),
    Stripe(Stripe),
}

/// The average of two nested patterns.
#[derive(Debug)]
pub struct Blended {
    pub a: Box<Pattern>,
    pub b: Box<Pattern>,
}

/// Alternates two colors by the parity of `floor(x) + floor(y) + floor(z)`.
#[derive(Clone, Copy, PartialEq, Eq, Structural, Debug)]
pub struct Checkers {
    pub a: Color,
    pub b: Color,
}

/// Interpolates between two colors by the fractional part of `x`.
#[derive(Clone, Copy, PartialEq, Eq, Structural, Debug)]
pub struct Gradient {
    pub a: Color,
    pub b: Color,
}

/// Interpolates between two colors by the fractional part of
/// `sqrt(x² + z²)`.
#[derive(Clone, Copy, PartialEq, Eq, Structural, Debug)]
pub struct RadialGradient {
    pub a: Color,
    pub b: Color,
}

/// Alternates two colors by the parity of `sqrt(x² + z²)` in whole units.
#[derive(Clone, Copy, PartialEq, Eq, Structural, Debug)]
pub struct Ring {
    pub a: Color,
    pub b: Color,
}

/// A single constant color.
#[derive(Clone, Copy, PartialEq, Eq, Structural, Debug)]
pub struct Solid {
    pub c: Color,
}

/// Alternates two colors by the parity of `floor(x)`.
#[derive(Clone, Copy, PartialEq, Eq, Structural, Debug)]
pub struct Stripe {
    pub a: Color,
    pub b: Color,
}

/// Whether the whole-unit count `n` is even.
pub open spec fn even_units(n: int) -> bool {
    sabs(n) % 2 == 0
}

/// Stripe: `a` on even `floor(x)`, `b` on odd.
pub open spec fn spec_stripe_at(s: Stripe, p: Tuple) -> Color {
    if even_units(funits(p.x.raw as int)) {
        s.a
    } else {
        s.b
    }
}

/// Checkers: `a` where `floor(x) + floor(y) + floor(z)` is even.
pub open spec fn spec_checkers_at(s: Checkers, p: Tuple) -> Color {
    if even_units(
        funits(p.x.raw as int) + funits(p.y.raw as int) + funits(p.z.raw as int),
    ) {
        s.a
    } else {
        s.b
    }
}

/// Ring: `a` where `sqrt(x² + z²)` has an even whole part.
pub open spec fn spec_ring_at(s: Ring, p: Tuple) -> Color {
    let d = fsqrt(
        fadd(fmul(p.x.raw as int, p.x.raw as int), fmul(p.z.raw as int, p.z.raw as int)),
    );
    if even_units(funits(d)) {
        s.a
    } else {
        s.b
    }
}

/// Gradient: `a + (b - a)·frac(x)`.
pub open spec fn spec_gradient_at(g: Gradient, p: Tuple) -> Color {
    let fraction = fsub(p.x.raw as int, ffloor(p.x.raw as int));
    spec_color_add(g.a, spec_color_scale(spec_color_sub(g.b, g.a), fraction))
}

/// Radial gradient: `a + (b - a)·frac(sqrt(x² + z²))`.
pub open spec fn spec_radial_gradient_at(g: RadialGradient, p: Tuple) -> Color {
    let d = fsqrt(
        fadd(fmul(p.x.raw as int, p.x.raw as int), fmul(p.z.raw as int, p.z.raw as int)),
    );
    let fraction = fsub(d, ffloor(d));
    spec_color_add(g.a, spec_color_scale(spec_color_sub(g.b, g.a), fraction))
}

/// Every transform in the pattern tree is invertible.
pub open spec fn pattern_wf(p: Pattern) -> bool
    decreases p,
{
    &&& spec_invertible(p.transform)
    &&& match p.pattern {
        Patterns::Blended(b) => pattern_wf(*b.a) && pattern_wf(*b.b),
        _ => true,
    }
}

/// The color of a pattern at a point already in the owning object's space:
/// the point is carried into pattern space by the pattern's own inverse
/// transform and handed to the variant's texture function.
#[verifier::rlimit(100)]
pub open spec fn spec_pattern_color_at(p: Pattern, obj_point: Tuple) -> Color
    decreases p,
{
    let t = spec_mat_tuple(spec_inverse4(p.transform), obj_point);
    match p.pattern {
        Patterns::Blended(b) => spec_blended_at(b, t),
        Patterns::Checkers(s) => spec_checkers_at(s, t),
        Patterns::Gradient(g) => spec_gradient_at(g, t),
        Patterns::RadialGradient(g) => spec_radial_gradient_at(g, t),
        Patterns::Ring(s) => spec_ring_at(s, t),
        Patterns::Solid(c) => c,
        Patterns::Stripe(s) => spec_stripe_at(s, t),
    }
}

/// Blended: the average of the two nested patterns' colors.
pub open spec fn spec_blended_at(b: Blended, p: Tuple) -> Color
    decreases b,
{
    spec_color_scale(
        spec_color_add(spec_pattern_color_at(*b.a, p), spec_pattern_color_at(*b.b, p)),
        HALF_SCALE as int,
    )
}

/// The pattern's color at a world-space point on `obj`: the point is first
/// pulled into the object's space by the object's inverse transform.
pub open spec fn spec_color_at_object(
    p: Pattern,
    obj: crate::shape::Shape,
    world_point: Tuple,
) -> Color {
    spec_pattern_color_at(p, spec_mat_tuple(spec_inverse4(obj.transform), world_point))
}

/// Whether `u`'s magnitude is even.
fn even_abs(u: i64) -> (r: bool)
    ensures
        r == even_units(u as int),
{
    let m = abs_u128(u);
    m % 2 == 0
}

impl Stripe {
    /// A stripe pattern from its two colors.
    pub fn new(a: Color, b: Color) -> (r: Stripe)
        ensures
            r == (Stripe { a, b }),
    {
        Stripe { a, b }
    }

    /// The stripe color at a pattern-space point.
    pub fn color_at(&self, p: &Tuple) -> (r: Color)
        ensures
            r == spec_stripe_at(*self, *p),
    {
        if even_abs(p.x.floor_units()) {
            self.a
        } else {
            self.b
        }
    }
}

impl Checkers {
    /// A checkers pattern from its two colors.
    pub fn new(a: Color, b: Color) -> (r: Checkers)
        ensures
            r == (Checkers { a, b }),
    {
        Checkers { a, b }
    }

    /// The checkers color at a pattern-space point.
    pub fn color_at(&self, p: &Tuple) -> (r: Color)
        ensures
            r == spec_checkers_at(*self, *p),
    {
        let u = p.x.floor_units() + p.y.floor_units() + p.z.floor_units();
        if even_abs(u) {
            self.a
        } else {
            self.b
        }
    }
}

impl Ring {
    /// A ring pattern from its two colors.
    pub fn new(a: Color, b: Color) -> (r: Ring)
        ensures
            r == (Ring { a, b }),
    {
        Ring { a, b }
    }

    /// The ring color at a pattern-space point.
    pub fn color_at(&self, p: &Tuple) -> (r: Color)
        ensures
            r == spec_ring_at(*self, *p),
    {
        let d = p.x.mul(p.x).add(p.z.mul(p.z)).sqrt();
        if even_abs(d.floor_units()) {
            self.a
        } else {
            self.b
        }
    }
}

impl Gradient {
    /// A gradient pattern from its two colors.
    pub fn new(a: Color, b: Color) -> (r: Gradient)
        ensures
            r == (Gradient { a, b }),
    {
        Gradient { a, b }
    }

    /// The interpolated color at a pattern-space point.
    pub fn color_at(&self, p: &Tuple) -> (r: Color)
        ensures
            r == spec_gradient_at(*self, *p),
    {
        let distance = self.b.sub(self.a);
        let fraction = p.x.sub(p.x.floor());
        self.a.add(distance.scale(fraction))
    }
}

impl RadialGradient {
    /// A radial gradient pattern from its two colors.
    pub fn new(a: Color, b: Color) -> (r: RadialGradient)
        ensures
            r == (RadialGradient { a, b }),
    {
        RadialGradient { a, b }
    }

    /// The interpolated color at a pattern-space point.
    pub fn color_at(&self, p: &Tuple) -> (r: Color)
        ensures
            r == spec_radial_gradient_at(*self, *p),
    {
        let d = p.x.mul(p.x).add(p.z.mul(p.z)).sqrt();
        let distance = self.b.sub(self.a);
        let fraction = d.sub(d.floor());
        self.a.add(distance.scale(fraction))
    }
}

impl Solid {
    /// A solid pattern from its color.
    pub fn new(c: Color) -> (r: Solid)
        ensures
            r == (Solid { c }),
    {
        Solid { c }
    }

    /// The constant color, at any point.
    pub fn color_at(&self, _p: &Tuple) -> (r: Color)
        ensures
            r == self.c,
    {
        self.c
    }
}

impl Blended {
    /// A blend of two nested patterns.
    pub fn new(a: Pattern, b: Pattern) -> (r: Blended)
        ensures
            r == (Blended { a: Box::new(a), b: Box::new(b) }),
    {
        Blended { a: Box::new(a), b: Box::new(b) }
    }

    /// The average of the two nested patterns' colors at the same point.
    pub fn color_at(&self, p: &Tuple) -> (r: Color)
        requires
            pattern_wf(*self.a),
            pattern_wf(*self.b),
        ensures
            r == spec_blended_at(*self, *p),
        decreases *self,
    {
        let a = self.a.color_at(p);
        let b = self.b.color_at(p);
        a.add(b).scale(Fx { raw: HALF_SCALE })
    }
}

impl Clone for Pattern {
    /// An exact structural copy.
    fn clone(&self) -> (r: Self)
        ensures
            r == *self,
        decreases *self,
    {
        let pattern = match &self.pattern {
            Patterns::Blended(b) => Patterns::Blended(
                Blended { a: Box::new((*b.a).clone()), b: Box::new((*b.b).clone()) },
            ),
            Patterns::Checkers(s) => Patterns::Checkers(*s),
            Patterns::Gradient(g) => Patterns::Gradient(*g),
            Patterns::RadialGradient(g) => Patterns::RadialGradient(*g),
            Patterns::Ring(s) => Patterns::Ring(*s),
            Patterns::Solid(c) => Patterns::Solid(*c),
            Patterns::Stripe(s) => Patterns::Stripe(*s),
        };
        Pattern { pattern, transform: self.transform }
    }
}

impl Pattern {
    /// A pattern from a variant, with the identity transform.
    pub fn new(pattern: Patterns) -> (r: Pattern)
        ensures
            r == (Pattern { pattern, transform: crate::matrix::spec_identity4() }),
    {
        Pattern { pattern, transform: Matrix4::identity() }
    }

    /// A blend of two nested patterns.
    pub fn blended(a: Pattern, b: Pattern) -> (r: Pattern)
        ensures
            r == (Pattern {
                pattern: Patterns::Blended(Blended { a: Box::new(a), b: Box::new(b) }),
                transform: crate::matrix::spec_identity4(),
            }),
    {
        Pattern::new(Patterns::Blended(Blended::new(a, b)))
    }

    /// A checkers pattern.
    pub fn checkers(a: Color, b: Color) -> (r: Pattern)
        ensures
            r == (Pattern {
                pattern: Patterns::Checkers(Checkers { a, b }),
                transform: crate::matrix::spec_identity4(),
            }),
    {
        Pattern::new(Patterns::Checkers(Checkers::new(a, b)))
    }

    /// A gradient pattern.
    pub fn gradient(a: Color, b: Color) -> (r: Pattern)
        ensures
            r == (Pattern {
                pattern: Patterns::Gradient(Gradient { a, b }),
                transform: crate::matrix::spec_identity4(),
            }),
    {
        Pattern::new(Patterns::Gradient(Gradient::new(a, b)))
    }

    /// A radial gradient pattern.
    pub fn radialgradient(a: Color, b: Color) -> (r: Pattern)
        ensures
            r == (Pattern {
                pattern: Patterns::RadialGradient(RadialGradient { a, b }),
                transform: crate::matrix::spec_identity4(),
            }),
    {
        Pattern::new(Patterns::RadialGradient(RadialGradient::new(a, b)))
    }

    /// A ring pattern.
    pub fn ring(a: Color, b: Color) -> (r: Pattern)
        ensures
            r == (Pattern {
                pattern: Patterns::Ring(Ring { a, b }),
                transform: crate::matrix::spec_identity4(),
            }),
    {
        Pattern::new(Patterns::Ring(Ring::new(a, b)))
    }

    /// A stripe pattern.
    pub fn stripe(a: Color, b: Color) -> (r: Pattern)
        ensures
            r == (Pattern {
                pattern: Patterns::Stripe(Stripe { a, b }),
                transform: crate::matrix::spec_identity4(),
            }),
    {
        Pattern::new(Patterns::Stripe(Stripe::new(a, b)))
    }

    /// A solid color pattern.
    pub fn solid(c: Color) -> (r: Pattern)
        ensures
            r == (Pattern {
                pattern: Patterns::Solid(c),
                transform: crate::matrix::spec_identity4(),
            }),
    {
        Pattern::new(Patterns::Solid(c))
    }

    /// The pattern's color at a point in the owning object's space.
    #[verifier::rlimit(100)]
    pub fn color_at(&self, obj_point: &Tuple) -> (r: Color)
        requires
            pattern_wf(*self),
        ensures
            r == spec_pattern_color_at(*self, *obj_point),
        decreases *self,
    {
        let t = self.transform.inverse().mul_tuple(obj_point);
        match &self.pattern {
            Patterns::Blended(b) => b.color_at(&t),
            Patterns::Checkers(s) => s.color_at(&t),
            Patterns::Gradient(g) => g.color_at(&t),
            Patterns::RadialGradient(g) => g.color_at(&t),
            Patterns::Ring(s) => s.color_at(&t),
            Patterns::Solid(c) => *c,
            Patterns::Stripe(s) => s.color_at(&t),
        }
    }

    /// The pattern's color at a world-space point on `obj`.
    pub fn color_at_object(&self, obj: &crate::shape::Shape, p: &Tuple) -> (r: Color)
        requires
            pattern_wf(*self),
            spec_invertible(obj.transform),
        ensures
            r == spec_color_at_object(*self, *obj, *p),
    {
        let obj_point = obj.transform.inverse().mul_tuple(p);
        self.color_at(&obj_point)
    }
}

} // verus!
