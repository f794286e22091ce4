//! Intersections: a ray parameter paired with the shape it struck, the
//! nearest-non-negative "hit" selection, and the shading context derived
//! from a chosen intersection.

use crate::fx::Fx;
use crate::matrix::spec_invertible;
use crate::ray::spec_position;
use crate::ray::Ray;
use crate::shape::spec_normal_at;
use crate::shape::Shape;
use crate::tuple::spec_add;
use crate::tuple::spec_dot;
use crate::tuple::spec_neg;
use crate::tuple::spec_scale;
use crate::tuple::Tuple;
use vstd::prelude::*;

verus! {

/// Raw offset of `over_point` along the normal, used as the shadow-ray
/// origin so the surface does not occlude itself ("acne"). Tuned
/// independently of the comparison epsilon; it must exceed the rounding
/// noise of the intersection arithmetic.
pub const SHADOW_OFFSET_RAW: i64 = 10_000;

/// A ray parameter and the shape it struck.
#[derive(Debug)]
pub struct Intersection {
    pub t: Fx,
    pub obj: Shape,
}

/// The shading context derived from one intersection of one ray.
#[derive(Debug)]
pub struct Computations {
    pub t: Fx,
    pub obj: Shape,
    pub point: Tuple,
    pub over_point: Tuple,
    pub eyev: Tuple,
    pub normalv: Tuple,
    pub inside: bool,
}

/// A collection of intersections.
#[derive(Debug)]
pub struct Intersections {
    pub intersections: Vec<Intersection>,
}

/// The hit: scanning left to right, an intersection with `t >= 0` replaces
/// the candidate only when its `t` is strictly smaller, so the result is
/// the earliest intersection among those with the least non-negative `t`.
pub open spec fn spec_hit(s: Seq<Intersection>) -> Option<Intersection>
    decreases s.len(),
{
    if s.len() == 0 {
        None
    } else {
        let prev = spec_hit(s.drop_last());
        let x = s.last();
        match prev {
            None => if x.t.raw >= 0 {
                Some(x)
            } else {
                None
            },
            Some(p) => if x.t.raw >= 0 && x.t.raw < p.t.raw {
                Some(x)
            } else {
                Some(p)
            },
        }
    }
}

/// The shading context for intersection `i` of ray `r`: the struck point,
/// the eye and (possibly flipped) normal vectors, whether the ray started
/// inside the shape, and the acne-avoiding `over_point`.
pub open spec fn spec_prepare_computations(i: Intersection, r: Ray) -> Computations {
    let point = spec_position(r, i.t.raw as int);
    let eyev = spec_neg(r.direction);
    let n0 = spec_normal_at(i.obj, point);
    let inside = spec_dot(n0, eyev) < 0;
    let normalv = if inside {
        spec_neg(n0)
    } else {
        n0
    };
    let over_point = spec_add(point, spec_scale(normalv, SHADOW_OFFSET_RAW as int));
    Computations { t: i.t, obj: i.obj, point, over_point, eyev, normalv, inside }
}

/// What `spec_hit` selects: `None` exactly when every `t` is negative;
/// otherwise a member with the least non-negative `t`.
pub proof fn lemma_hit_properties(s: Seq<Intersection>)
    ensures
        spec_hit(s) is None ==> forall|i: int| 0 <= i < s.len() ==> #[trigger] s[i].t.raw < 0,
        spec_hit(s) is Some ==> {
            let h = spec_hit(s)->Some_0;
            &&& s.contains(h)
            &&& h.t.raw >= 0
            &&& forall|i: int|
                0 <= i < s.len() && #[trigger] s[i].t.raw >= 0 ==> h.t.raw <= s[i].t.raw
        },
    decreases s.len(),
{
    if s.len() > 0 {
        lemma_hit_properties(s.drop_last());
        let prev = spec_hit(s.drop_last());
        if prev is Some {
            assert(s.drop_last().contains(prev->Some_0));
            let j = choose|j: int|
                0 <= j < s.drop_last().len() && s.drop_last()[j] == prev->Some_0;
            assert(s[j] == prev->Some_0);
        }
        assert forall|i: int| 0 <= i < s.len() implies s[i] == if i < s.len() - 1 {
            s.drop_last()[i]
        } else {
            s.last()
        } by {}
        if spec_hit(s) is Some {
            let h = spec_hit(s)->Some_0;
            if h == s.last() {
                assert(s[s.len() - 1] == h);
            }
        }
    }
}

impl Clone for Intersection {
    /// An exact copy.
    fn clone(&self) -> (r: Self)
        ensures
            r == *self,
    {
        Intersection { t: self.t, obj: self.obj.clone() }
    }
}

impl Intersection {
    /// An intersection from its parameter and shape.
    pub fn new(t: Fx, obj: Shape) -> (r: Intersection)
        ensures
            r == (Intersection { t, obj }),
    {
        Intersection { t, obj }
    }

    /// The shading context for this intersection of the ray `r`.
    pub fn prepare_computations(&self, r: &Ray) -> (c: Computations)
        requires
            spec_invertible(self.obj.transform),
        ensures
            c == spec_prepare_computations(*self, *r),
    {
        let point = r.position(self.t);
        let eyev = r.direction.neg();
        let mut normalv = self.obj.normal_at(point);
        let inside = normalv.dot(&eyev).raw < 0;
        if inside {
            normalv = normalv.neg();
        }
        let over_point = point.add(normalv.scale(Fx { raw: SHADOW_OFFSET_RAW }));
        Computations {
            t: self.t,
            obj: self.obj.clone(),
            point,
            over_point,
            eyev,
            normalv,
            inside,
        }
    }
}

impl Intersections {
    /// A collection from a vector of intersections.
    pub fn new(intersections: Vec<Intersection>) -> (r: Intersections)
        ensures
            r.intersections == intersections,
    {
        Intersections { intersections }
    }

    /// How many intersections the collection holds.
    pub fn len(&self) -> (n: usize)
        ensures
            n == self.intersections@.len(),
    {
        self.intersections.len()
    }

    /// The intersection at index `i`.
    pub fn at(&self, i: usize) -> (r: &Intersection)
        requires
            i < self.intersections@.len(),
        ensures
            *r == self.intersections@[i as int],
    {
        &self.intersections[i]
    }

    /// The hit: the earliest intersection among those with the least
    /// non-negative `t`, or `None` when every `t` is negative.
    pub fn hit(&self) -> (h: Option<Intersection>)
        ensures
            h == spec_hit(self.intersections@),
            h is None ==> forall|i: int|
                0 <= i < self.intersections@.len() ==> #[trigger] self.intersections@[i].t.raw
                    < 0,
            h is Some ==> {
                &&& self.intersections@.contains(h->Some_0)
                &&& h->Some_0.t.raw >= 0
                &&& forall|i: int|
                    0 <= i < self.intersections@.len()
                        && #[trigger] self.intersections@[i].t.raw >= 0 ==> h->Some_0.t.raw
                        <= self.intersections@[i].t.raw
            },
    {
        proof {
            lemma_hit_properties(self.intersections@);
        }
        let ghost s = self.intersections@;
        let mut best: Option<Intersection> = None;
        let mut i: usize = 0;
        while i < self.intersections.len()
            invariant
                0 <= i <= s.len(),
                s == self.intersections@,
                best == spec_hit(s.take(i as int)),
            decreases s.len() - i,
        {
            let x = &self.intersections[i];
            let replace: bool = x.t.raw >= 0 && match &best {
                None => true,
                Some(p) => x.t.raw < p.t.raw,
            };
            proof {
                assert(s.take(i as int + 1).drop_last() =~= s.take(i as int));
                assert(s.take(i as int + 1).last() == s[i as int]);
            }
            if replace {
                best = Some(x.clone());
            }
            i = i + 1;
        }
        proof {
            assert(s.take(s.len() as int) =~= s);
        }
        best
    }
}

} // verus!
