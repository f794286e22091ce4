//! Rays: an origin point and a direction vector.

use crate::fx::Fx;
use crate::matrix::spec_mat_tuple;
use crate::matrix::Matrix4;
use crate::tuple::spec_add;
use crate::tuple::spec_scale;
use crate::tuple::Tuple;
use vstd::prelude::*;

verus! {

/// A ray: origin point plus direction vector.
#[derive(Clone, Copy, PartialEq, Eq, Structural, Debug)]
pub struct Ray {
    pub origin: Tuple,
    pub direction: Tuple,
}

/// The point at parameter `t` (raw): `origin + direction·t`.
pub open spec fn spec_position(r: Ray, t: int) -> Tuple {
    spec_add(r.origin, spec_scale(r.direction, t))
}

/// The ray with origin and direction both sent through `m`.
pub open spec fn spec_ray_transform(r: Ray, m: Matrix4) -> Ray {
    Ray { origin: spec_mat_tuple(m, r.origin), direction: spec_mat_tuple(m, r.direction) }
}

impl Ray {
    /// A ray from its origin and direction.
    pub fn new(origin: Tuple, direction: Tuple) -> (r: Ray)
        ensures
            r == (Ray { origin, direction }),
    {
        Ray { origin, direction }
    }

    /// The point at parameter `t`: `origin + direction·t`.
    pub fn position(&self, t: Fx) -> (p: Tuple)
        ensures
            p == spec_position(*self, t.raw as int),
    {
        self.origin.add(self.direction.scale(t))
    }

    /// The ray carried into another space by the matrix `m`.
    pub fn transform(&self, m: Matrix4) -> (r: Ray)
        ensures
            r == spec_ray_transform(*self, m),
    {
        Ray { origin: m.mul_tuple(&self.origin), direction: m.mul_tuple(&self.direction) }
    }
}

} // verus!
