//! Primitive shapes: a closed set of variants (sphere, plane, and a test
//! double), each carrying an identity token, a transform and a material.
//!
//! A shape intersects a world-space ray by pulling the ray into its local
//! space with the inverse transform and dispatching on the variant; normals
//! go the other way, through the inverse transpose.

use crate::fx::fadd;
use crate::fx::fdiv;
use crate::fx::fmul;
use crate::fx::fneg;
use crate::fx::fsqrt;
use crate::fx::fsub;
use crate::fx::sabs;
use crate::fx::Fx;
use crate::fx::EPSILON_RAW;
use crate::fx::SCALE;
use crate::intersection::Intersection;
use crate::intersection::Intersections;
use crate::material::spec_default_material;
use crate::material::Material;
use crate::matrix::spec_identity4;
use crate::matrix::spec_inverse4;
use crate::matrix::spec_invertible;
use crate::matrix::spec_mat_tuple;
use crate::matrix::spec_transpose4;
use crate::matrix::Matrix4;
use crate::ray::spec_ray_transform;
use crate::ray::Ray;
use crate::tuple::spec_dot;
use crate::tuple::spec_normalize;
use crate::tuple::spec_sub;
use crate::tuple::Tuple;
use vstd::prelude::*;

verus! {

#[verifier::external_type_specification]
#[verifier::external_body]
pub struct ExUuid(uuid::Uuid);

/// Relies on uuid::Uuid::new_v4: a freshly generated random identifier.
/// Nothing is assumed of the value returned.
pub assume_specification[ uuid::Uuid::new_v4 ]() -> uuid::Uuid;

/// A unit sphere centered at the local origin.
#[derive(Clone, Copy, PartialEq, Eq, Structural, Debug)]
pub struct Sphere {}

/// The local XZ plane through the origin.
#[derive(Clone, Copy, PartialEq, Eq, Structural, Debug)]
pub struct Plane {}

/// A test double that intersects like a plane.
#[derive(Clone, Copy, PartialEq, Eq, Structural, Debug)]
pub struct TestShape {}

/// The closed set of shape variants.
#[derive(Clone, Copy, PartialEq, Eq, Structural, Debug)]
pub enum Shapes {
    Sphere(Sphere),
    Plane(Plane),
    Test(TestShape),
}

/// A shape: an opaque identity token, a variant, a transform and a material.
#[derive(Debug)]
pub struct Shape {
    pub id: uuid::Uuid,
    pub shape: Shapes,
    pub transform: Matrix4,
    pub material: Material,
}

/// The local origin as a point.
pub open spec fn spec_origin_point() -> Tuple {
    Tuple { x: Fx { raw: 0 }, y: Fx { raw: 0 }, z: Fx { raw: 0 }, w: Fx { raw: SCALE } }
}

/// The constant local plane normal, `(0, 1, 0)`.
pub open spec fn spec_up_vector() -> Tuple {
    Tuple { x: Fx { raw: 0 }, y: Fx { raw: SCALE }, z: Fx { raw: 0 }, w: Fx { raw: 0 } }
}

/// Intersections of a local-space ray with the unit sphere: the two roots
/// of `a·t² + b·t + c = 0`, both returned even when negative; none when the
/// discriminant is negative, or when the quadratic degenerates because the
/// direction's self-dot rounds to zero.
pub open spec fn spec_sphere_intersect(s: Shape, ray: Ray) -> Seq<Intersection> {
    let sphere_to_ray = spec_sub(ray.origin, spec_origin_point());
    let a = spec_dot(ray.direction, ray.direction);
    let b = fmul(2 * SCALE as int, spec_dot(ray.direction, sphere_to_ray));
    let c = fsub(spec_dot(sphere_to_ray, sphere_to_ray), SCALE as int);
    let disc = fsub(fmul(b, b), fmul(fmul(4 * SCALE as int, a), c));
    let denom = fmul(2 * SCALE as int, a);
    if disc < 0 || denom == 0 {
        Seq::empty()
    } else {
        let sq = fsqrt(disc);
        let t1 = fdiv(fsub(fneg(b), sq), denom);
        let t2 = fdiv(fadd(fneg(b), sq), denom);
        seq![
            Intersection { t: Fx { raw: t1 as i64 }, obj: s },
            Intersection { t: Fx { raw: t2 as i64 }, obj: s },
        ]
    }
}

/// Intersections of a local-space ray with the XZ plane: none when the ray
/// is parallel or coplanar (`|direction.y|` below epsilon), else the single
/// parameter `-origin.y / direction.y`.
pub open spec fn spec_plane_intersect(s: Shape, ray: Ray) -> Seq<Intersection> {
    if sabs(ray.direction.y.raw as int) < EPSILON_RAW as int {
        Seq::empty()
    } else {
        seq![
            Intersection {
                t: Fx {
                    raw: fdiv(fneg(ray.origin.y.raw as int), ray.direction.y.raw as int) as i64,
                },
                obj: s,
            },
        ]
    }
}

/// World-space intersections: the ray is pulled into local space by the
/// shape's inverse transform, then dispatched on the variant.
pub open spec fn spec_shape_intersect(s: Shape, r: Ray) -> Seq<Intersection> {
    let local_ray = spec_ray_transform(r, spec_inverse4(s.transform));
    match s.shape {
        Shapes::Sphere(_) => spec_sphere_intersect(s, local_ray),
        Shapes::Plane(_) => spec_plane_intersect(s, local_ray),
        Shapes::Test(_) => spec_plane_intersect(s, local_ray),
    }
}

/// The local normal of a variant at a local-space point.
pub open spec fn spec_local_normal(s: Shapes, local_point: Tuple) -> Tuple {
    match s {
        Shapes::Sphere(_) => spec_sub(local_point, spec_origin_point()),
        Shapes::Plane(_) => spec_up_vector(),
        Shapes::Test(_) => spec_up_vector(),
    }
}

/// The world-space normal: the point is pulled into local space, the local
/// normal is pushed back through the inverse transpose, its `w` is forced
/// to zero, and the result is normalized.
pub open spec fn spec_normal_at(s: Shape, p: Tuple) -> Tuple {
    let inv = spec_inverse4(s.transform);
    let local_point = spec_mat_tuple(inv, p);
    let local_normal = spec_local_normal(s.shape, local_point);
    let world_normal = spec_mat_tuple(spec_transpose4(inv), local_normal);
    spec_normalize(Tuple { w: Fx { raw: 0 }, ..world_normal })
}

impl Sphere {
    /// A unit sphere.
    pub fn new() -> (r: Sphere)
        ensures
            r == (Sphere {  }),
    {
        Sphere {  }
    }

    /// Intersections of a local-space ray with the unit sphere.
    pub fn local_intersect(shape: Shape, ray: &Ray) -> (xs: Intersections)
        ensures
            xs.intersections@ == spec_sphere_intersect(shape, *ray),
    {
        let sphere_to_ray = ray.origin.sub(Tuple::point(
            Fx { raw: 0 },
            Fx { raw: 0 },
            Fx { raw: 0 },
        ));
        let a = ray.direction.dot(&ray.direction);
        let b = Fx { raw: 2 * SCALE }.mul(ray.direction.dot(&sphere_to_ray));
        let c = sphere_to_ray.dot(&sphere_to_ray).sub(Fx { raw: SCALE });
        let discriminant = b.mul(b).sub(Fx { raw: 4 * SCALE }.mul(a).mul(c));
        let denom = Fx { raw: 2 * SCALE }.mul(a);
        if discriminant.raw < 0 || denom.raw == 0 {
            let v: Vec<Intersection> = Vec::new();
            proof {
                assert(v@ =~= spec_sphere_intersect(shape, *ray));
            }
            return Intersections::new(v);
        }
        let sq = discriminant.sqrt();
        let t1 = b.neg().sub(sq).div(denom);
        let t2 = b.neg().add(sq).div(denom);
        let mut v: Vec<Intersection> = Vec::new();
        v.push(Intersection::new(t1, shape.clone()));
        v.push(Intersection::new(t2, shape));
        proof {
            assert(v@ =~= spec_sphere_intersect(shape, *ray));
        }
        Intersections::new(v)
    }

    /// The local normal: the vector from the origin to the point.
    pub fn local_normal_at(&self, object_point: Tuple) -> (n: Tuple)
        ensures
            n == spec_sub(object_point, spec_origin_point()),
    {
        object_point.sub(Tuple::point(Fx { raw: 0 }, Fx { raw: 0 }, Fx { raw: 0 }))
    }
}

impl Plane {
    /// A plane.
    pub fn new() -> (r: Plane)
        ensures
            r == (Plane {  }),
    {
        Plane {  }
    }

    /// Intersections of a local-space ray with the XZ plane.
    pub fn local_intersect(shape: Shape, ray: &Ray) -> (xs: Intersections)
        ensures
            xs.intersections@ == spec_plane_intersect(shape, *ray),
    {
        let dy = ray.direction.y.raw;
        if -EPSILON_RAW < dy && dy < EPSILON_RAW {
            let v: Vec<Intersection> = Vec::new();
            proof {
                assert(v@ =~= spec_plane_intersect(shape, *ray));
            }
            return Intersections::new(v);
        }
        let t = ray.origin.y.neg().div(ray.direction.y);
        let mut v: Vec<Intersection> = Vec::new();
        v.push(Intersection::new(t, shape));
        proof {
            assert(v@ =~= spec_plane_intersect(shape, *ray));
        }
        Intersections::new(v)
    }

    /// The constant local normal, `(0, 1, 0)`.
    pub fn local_normal_at(&self, _p: Tuple) -> (n: Tuple)
        ensures
            n == spec_up_vector(),
    {
        Tuple::vector(Fx { raw: 0 }, Fx { raw: SCALE }, Fx { raw: 0 })
    }
}

impl TestShape {
    /// A test double.
    pub fn new() -> (r: TestShape)
        ensures
            r == (TestShape {  }),
    {
        TestShape {  }
    }

    /// Intersections of a local-space ray, computed as for the plane.
    pub fn local_intersect(shape: Shape, ray: &Ray) -> (xs: Intersections)
        ensures
            xs.intersections@ == spec_plane_intersect(shape, *ray),
    {
        Plane::local_intersect(shape, ray)
    }

    /// The constant local normal, `(0, 1, 0)`.
    pub fn local_normal_at(&self, _p: Tuple) -> (n: Tuple)
        ensures
            n == spec_up_vector(),
    {
        Tuple::vector(Fx { raw: 0 }, Fx { raw: SCALE }, Fx { raw: 0 })
    }
}

impl Clone for Shape {
    /// An exact copy, identity token included.
    fn clone(&self) -> (r: Self)
        ensures
            r == *self,
    {
        Shape {
            id: self.id,
            shape: self.shape,
            transform: self.transform,
            material: self.material.clone(),
        }
    }
}

impl Shape {
    /// A shape of the given variant, with a fresh identity token, the
    /// identity transform and the default material.
    pub fn new(shape: Shapes) -> (r: Shape)
        ensures
            r.shape == shape,
            r.transform == spec_identity4(),
            r.material == spec_default_material(),
    {
        Shape {
            id: uuid::Uuid::new_v4(),
            shape,
            transform: Matrix4::identity(),
            material: Material::new(),
        }
    }

    /// A unit sphere shape.
    pub fn sphere() -> (r: Shape)
        ensures
            r.shape == Shapes::Sphere(Sphere {  }),
            r.transform == spec_identity4(),
            r.material == spec_default_material(),
    {
        Shape::new(Shapes::Sphere(Sphere::new()))
    }

    /// A plane shape.
    pub fn plane() -> (r: Shape)
        ensures
            r.shape == Shapes::Plane(Plane {  }),
            r.transform == spec_identity4(),
            r.material == spec_default_material(),
    {
        Shape::new(Shapes::Plane(Plane::new()))
    }

    /// A test-double shape.
    pub fn test() -> (r: Shape)
        ensures
            r.shape == Shapes::Test(TestShape {  }),
            r.transform == spec_identity4(),
            r.material == spec_default_material(),
    {
        Shape::new(Shapes::Test(TestShape::new()))
    }

    /// The opaque identity token.
    pub fn get_id(&self) -> (r: uuid::Uuid)
        ensures
            r == self.id,
    {
        self.id
    }

    /// Intersections of a world-space ray with this shape.
    pub fn intersect(&self, r: &Ray) -> (xs: Intersections)
        requires
            spec_invertible(self.transform),
        ensures
            xs.intersections@ == spec_shape_intersect(*self, *r),
    {
        let local_ray = r.transform(self.transform.inverse());
        match self.shape {
            Shapes::Sphere(_) => Sphere::local_intersect(self.clone(), &local_ray),
            Shapes::Plane(_) => Plane::local_intersect(self.clone(), &local_ray),
            Shapes::Test(_) => TestShape::local_intersect(self.clone(), &local_ray),
        }
    }

    /// The world-space normal at a world-space point.
    pub fn normal_at(&self, p: Tuple) -> (n: Tuple)
        requires
            spec_invertible(self.transform),
        ensures
            n == spec_normal_at(*self, p),
    {
        let inv = self.transform.inverse();
        let local_point = inv.mul_tuple(&p);
        let local_normal = match self.shape {
            Shapes::Sphere(s) => s.local_normal_at(local_point),
            Shapes::Plane(s) => s.local_normal_at(local_point),
            Shapes::Test(s) => s.local_normal_at(local_point),
        };
        let mut world_normal = inv.transpose().mul_tuple(&local_normal);
        world_normal.w = Fx { raw: 0 };
        world_normal.normalize_or_zero()
    }
}

} // verus!
