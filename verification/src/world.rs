//! The scene: a list of shapes and at most one point light. A world
//! aggregates every shape's intersections in order, sorts them by `t`
//! (stably), tests visibility against the light, and resolves a ray to a
//! final color.

use crate::color::spec_black;
use crate::color::Color;
use crate::fx::Fx;
use crate::intersection::spec_hit;
use crate::intersection::spec_prepare_computations;
use crate::intersection::Computations;
use crate::intersection::Intersection;
use crate::intersection::Intersections;
use crate::light::PointLight;
use crate::material::spec_lighting;
use crate::matrix::spec_invertible;
use crate::matrix::spec_scaling;
use crate::matrix::Matrix4;
use crate::pattern::pattern_wf;
use crate::pattern::Pattern;
use crate::ray::Ray;
use crate::shape::spec_shape_intersect;
use crate::shape::Shape;
use crate::tuple::spec_magnitude;
use crate::tuple::spec_normalize;
use crate::tuple::spec_sub;
use crate::tuple::Tuple;
use vstd::prelude::*;
use vstd::seq_lib::group_to_multiset_ensures;

verus! {

broadcast use group_to_multiset_ensures;

/// A scene: shapes plus an optional light.
#[derive(Debug)]
pub struct World {
    pub objects: Vec<Shape>,
    pub light: Option<PointLight>,
}

/// Every shape's transform is invertible.
pub open spec fn world_wf(w: World) -> bool {
    forall|i: int|
        0 <= i < w.objects@.len() ==> spec_invertible((#[trigger] w.objects@[i]).transform)
}

/// Every shape's pattern tree has invertible transforms.
pub open spec fn world_materials_wf(w: World) -> bool {
    forall|i: int|
        0 <= i < w.objects@.len() ==> pattern_wf((#[trigger] w.objects@[i]).material.pattern)
}

/// All intersections of the ray with the shapes, in shape order.
pub open spec fn spec_xs_of(objs: Seq<Shape>, r: Ray) -> Seq<Intersection>
    decreases objs.len(),
{
    if objs.len() == 0 {
        Seq::empty()
    } else {
        spec_xs_of(objs.drop_last(), r) + spec_shape_intersect(objs.last(), r)
    }
}

/// Insert `x` after every element whose `t` is at most `x`'s (stable).
pub open spec fn spec_insert_sorted(s: Seq<Intersection>, x: Intersection) -> Seq<Intersection>
    decreases s.len(),
{
    if s.len() == 0 {
        seq![x]
    } else if s.last().t.raw <= x.t.raw {
        s.push(x)
    } else {
        spec_insert_sorted(s.drop_last(), x).push(s.last())
    }
}

/// Stable insertion sort by `t`.
pub open spec fn spec_sort_by_t(s: Seq<Intersection>) -> Seq<Intersection>
    decreases s.len(),
{
    if s.len() == 0 {
        Seq::empty()
    } else {
        spec_insert_sorted(spec_sort_by_t(s.drop_last()), s.last())
    }
}

/// Non-decreasing in `t`.
pub open spec fn sorted_by_t(s: Seq<Intersection>) -> bool {
    forall|i: int, j: int| 0 <= i <= j < s.len() ==> s[i].t.raw <= s[j].t.raw
}

/// The world's intersections with a ray: every shape's intersections,
/// merged and stably sorted ascending by `t`.
pub open spec fn spec_world_intersect(w: World, r: Ray) -> Seq<Intersection> {
    spec_sort_by_t(spec_xs_of(w.objects@, r))
}

/// Whether the light is occluded from `p`: cast a ray from `p` toward the
/// light; the point is shadowed when some hit lies strictly closer than
/// the light.
pub open spec fn spec_is_shadowed(w: World, p: Tuple) -> bool {
    match w.light {
        Some(light) => {
            let v = spec_sub(light.position, p);
            let distance = spec_magnitude(v);
            let direction = spec_normalize(v);
            let r = Ray { origin: p, direction };
            match spec_hit(spec_world_intersect(w, r)) {
                Some(h) => h.t.raw < distance,
                None => false,
            }
        },
        None => false,
    }
}

/// The color of a shading context: Phong lighting at `over_point`, with
/// the shadow flag resolved against the world's light.
pub open spec fn spec_shade_hit(w: World, comps: Computations) -> Color {
    match w.light {
        Some(light) => spec_lighting(
            comps.obj.material,
            comps.obj,
            light,
            comps.over_point,
            comps.eyev,
            comps.normalv,
            spec_is_shadowed(w, comps.over_point),
        ),
        None => spec_black(),
    }
}

/// The hit of a ray against the whole world.
#[verifier::opaque]
pub open spec fn spec_hit_of_ray(w: World, r: Ray) -> Option<Intersection> {
    spec_hit(spec_world_intersect(w, r))
}

/// The color a ray resolves to: shade the hit, or black on a miss.
#[verifier::opaque]
pub open spec fn spec_color_at(w: World, r: Ray) -> Color {
    match spec_hit(spec_world_intersect(w, r)) {
        Some(h) => spec_shade_hit(w, spec_prepare_computations(h, r)),
        None => spec_black(),
    }
}

/// `spec_insert_sorted` is insertion at the found position.
proof fn lemma_insert_sorted_at(s: Seq<Intersection>, x: Intersection, k: int)
    requires
        0 <= k <= s.len(),
        forall|j: int| k <= j < s.len() ==> s[j].t.raw > x.t.raw,
        k > 0 ==> s[k - 1].t.raw <= x.t.raw,
    ensures
        spec_insert_sorted(s, x) == s.insert(k, x),
    decreases s.len(),
{
    if s.len() == 0 {
        assert(spec_insert_sorted(s, x) =~= s.insert(0, x));
    } else if k == s.len() {
        assert(s.last().t.raw <= x.t.raw);
        assert(s.push(x) =~= s.insert(k, x));
    } else {
        assert(s[s.len() - 1].t.raw > x.t.raw);
        lemma_insert_sorted_at(s.drop_last(), x, k);
        assert(spec_insert_sorted(s.drop_last(), x) == s.drop_last().insert(k, x));
        assert(s.drop_last().insert(k, x).push(s.last()) =~= s.insert(k, x));
    }
}

/// Inserting preserves the multiset of elements.
proof fn lemma_insert_sorted_multiset(s: Seq<Intersection>, x: Intersection)
    ensures
        spec_insert_sorted(s, x).to_multiset() == s.to_multiset().insert(x),
    decreases s.len(),
{
    if s.len() == 0 {
        assert(seq![x] =~= Seq::empty().push(x));
        assert(Seq::<Intersection>::empty().push(x).to_multiset()
            == Seq::<Intersection>::empty().to_multiset().insert(x));
    } else if s.last().t.raw <= x.t.raw {
    } else {
        lemma_insert_sorted_multiset(s.drop_last(), x);
        assert(s.drop_last().push(s.last()) =~= s);
        assert(spec_insert_sorted(s, x).to_multiset() == s.drop_last().to_multiset().insert(
            x,
        ).insert(s.last()));
        assert(s.to_multiset().insert(x) == s.drop_last().to_multiset().insert(s.last()).insert(
            x,
        ));
        assert(s.drop_last().to_multiset().insert(x).insert(s.last())
            =~= s.drop_last().to_multiset().insert(s.last()).insert(x));
    }
}

/// Inserting into a sorted sequence keeps it sorted.
proof fn lemma_insert_sorted_sorted(s: Seq<Intersection>, x: Intersection)
    requires
        sorted_by_t(s),
    ensures
        sorted_by_t(spec_insert_sorted(s, x)),
    decreases s.len(),
{
    if s.len() == 0 {
    } else if s.last().t.raw <= x.t.raw {
    } else {
        assert(sorted_by_t(s.drop_last()));
        lemma_insert_sorted_sorted(s.drop_last(), x);
        lemma_insert_sorted_multiset(s.drop_last(), x);
        let ins = spec_insert_sorted(s.drop_last(), x);
        assert forall|j: int| 0 <= j < ins.len() implies ins[j].t.raw <= s.last().t.raw by {
            assert(ins.contains(ins[j]));
            assert(ins.to_multiset().contains(ins[j]));
            if ins[j] == x {
            } else {
                assert(s.drop_last().to_multiset().contains(ins[j]));
                assert(s.drop_last().contains(ins[j]));
                let m = choose|m: int|
                    0 <= m < s.drop_last().len() && s.drop_last()[m] == ins[j];
                assert(s[m].t.raw <= s.last().t.raw);
            }
        }
    }
}

/// The sort returns a sorted permutation.
proof fn lemma_sort_by_t_properties(s: Seq<Intersection>)
    ensures
        sorted_by_t(spec_sort_by_t(s)),
        spec_sort_by_t(s).to_multiset() == s.to_multiset(),
    decreases s.len(),
{
    if s.len() == 0 {
    } else {
        lemma_sort_by_t_properties(s.drop_last());
        lemma_insert_sorted_sorted(spec_sort_by_t(s.drop_last()), s.last());
        lemma_insert_sorted_multiset(spec_sort_by_t(s.drop_last()), s.last());
        assert(s.drop_last().push(s.last()) =~= s);
    }
}

/// Every intersection a shape reports references that shape.
#[verifier::rlimit(100)]
proof fn lemma_shape_intersect_obj(s: Shape, r: Ray, x: Intersection)
    requires
        spec_shape_intersect(s, r).contains(x),
    ensures
        x.obj == s,
{
    let xs = spec_shape_intersect(s, r);
    let k = choose|k: int| 0 <= k < xs.len() && xs[k] == x;
    assert(xs[k].obj == s);
}

/// Every aggregated intersection references one of the world's shapes.
proof fn lemma_xs_member(objs: Seq<Shape>, r: Ray, x: Intersection)
    requires
        spec_xs_of(objs, r).contains(x),
    ensures
        exists|i: int| 0 <= i < objs.len() && #[trigger] objs[i] == x.obj,
    decreases objs.len(),
{
    let xs = spec_xs_of(objs, r);
    let k = choose|k: int| 0 <= k < xs.len() && xs[k] == x;
    let prev = spec_xs_of(objs.drop_last(), r);
    if k < prev.len() {
        assert(prev[k] == x);
        assert(prev.contains(x));
        lemma_xs_member(objs.drop_last(), r, x);
        let i = choose|i: int| 0 <= i < objs.drop_last().len() && objs.drop_last()[i] == x.obj;
        assert(objs[i] == x.obj);
    } else {
        let tail = spec_shape_intersect(objs.last(), r);
        assert(tail[k - prev.len()] == x);
        assert(tail.contains(x));
        lemma_shape_intersect_obj(objs.last(), r, x);
        assert(objs[objs.len() - 1] == x.obj);
    }
}

/// Stable insertion sort by `t` over a vector of intersections.
fn sort_intersections(v: Vec<Intersection>) -> (out: Vec<Intersection>)
    ensures
        out@ == spec_sort_by_t(v@),
{
    let mut out: Vec<Intersection> = Vec::new();
    let mut i: usize = 0;
    while i < v.len()
        invariant
            0 <= i <= v@.len(),
            out@ == spec_sort_by_t(v@.take(i as int)),
        decreases v@.len() - i,
    {
        let x = v[i].clone();
        let ghost prev_out = out@;
        let mut k: usize = out.len();
        while k > 0 && out[k - 1].t.raw > x.t.raw
            invariant
                0 <= k <= out@.len(),
                out@ == prev_out,
                x == v@[i as int],
                forall|j: int| k <= j < out@.len() ==> out@[j].t.raw > x.t.raw,
            decreases k,
        {
            k = k - 1;
        }
        out.insert(k, x);
        proof {
            lemma_insert_sorted_at(prev_out, x, k as int);
            assert(v@.take(i as int + 1).drop_last() =~= v@.take(i as int));
            assert(v@.take(i as int + 1).last() == v@[i as int]);
        }
        i = i + 1;
    }
    proof {
        assert(v@.take(v@.len() as int) =~= v@);
    }
    out
}

impl World {
    /// An empty world: no shapes, no light.
    pub fn new() -> (w: World)
        ensures
            w.objects@.len() == 0,
            w.light is None,
    {
        World { objects: Vec::new(), light: None }
    }

    /// The default test world: an outer colored sphere, an inner half-size
    /// sphere, and a white light at (-10, 10, -10).
    pub fn default() -> (w: World)
        ensures
            w.objects@.len() == 2,
            w.objects@[0].shape == crate::shape::Shapes::Sphere(crate::shape::Sphere {  }),
            w.objects@[0].transform == crate::matrix::spec_identity4(),
            w.objects@[0].material.pattern == (Pattern {
                pattern: crate::pattern::Patterns::Solid(
                    Color {
                        red: Fx { raw: 800_000_000 },
                        green: Fx { raw: 1_000_000_000 },
                        blue: Fx { raw: 600_000_000 },
                    },
                ),
                transform: crate::matrix::spec_identity4(),
            }),
            w.objects@[0].material.ambient == (Fx { raw: 100_000_000 }),
            w.objects@[0].material.diffuse == (Fx { raw: 700_000_000 }),
            w.objects@[0].material.specular == (Fx { raw: 200_000_000 }),
            w.objects@[0].material.shininess == (Fx { raw: 200_000_000_000 }),
            w.objects@[1].shape == crate::shape::Shapes::Sphere(crate::shape::Sphere {  }),
            w.objects@[1].transform == spec_scaling(
                Fx { raw: 500_000_000 },
                Fx { raw: 500_000_000 },
                Fx { raw: 500_000_000 },
            ),
            w.objects@[1].material == crate::material::spec_default_material(),
            w.light == Some(
                PointLight {
                    position: Tuple {
                        x: Fx { raw: -10_000_000_000i64 },
                        y: Fx { raw: 10_000_000_000 },
                        z: Fx { raw: -10_000_000_000i64 },
                        w: Fx { raw: 1_000_000_000 },
                    },
                    intensity: crate::color::spec_white(),
                },
            ),
    {
        let mut s1 = Shape::sphere();
        let mut s2 = Shape::sphere();
        s1.material.pattern = Pattern::solid(Color::new(
            Fx { raw: 800_000_000 },
            Fx { raw: 1_000_000_000 },
            Fx { raw: 600_000_000 },
        ));
        s1.material.diffuse = Fx { raw: 700_000_000 };
        s1.material.specular = Fx { raw: 200_000_000 };
        s2.transform = Matrix4::scaling(
            Fx { raw: 500_000_000 },
            Fx { raw: 500_000_000 },
            Fx { raw: 500_000_000 },
        );
        let mut objects: Vec<Shape> = Vec::new();
        objects.push(s1);
        objects.push(s2);
        let light = PointLight::new(
            Tuple::point(
                Fx { raw: -10_000_000_000i64 },
                Fx { raw: 10_000_000_000 },
                Fx { raw: -10_000_000_000i64 },
            ),
            Color::white(),
        );
        World { objects, light: Some(light) }
    }

    /// Append a shape to the scene.
    pub fn add(&mut self, s: Shape)
        ensures
            final(self).objects@ == old(self).objects@.push(s),
            final(self).light == old(self).light,
    {
        self.objects.push(s)
    }

    /// Every shape's intersections with the ray, merged and stably sorted
    /// ascending by `t`.
    #[verifier::rlimit(100)]
    pub fn intersect(&self, r: &Ray) -> (xs: Intersections)
        requires
            world_wf(*self),
        ensures
            xs.intersections@ == spec_world_intersect(*self, *r),
            sorted_by_t(xs.intersections@),
            xs.intersections@.to_multiset() == spec_xs_of(self.objects@, *r).to_multiset(),
    {
        let mut v: Vec<Intersection> = Vec::new();
        let mut i: usize = 0;
        while i < self.objects.len()
            invariant
                0 <= i <= self.objects@.len(),
                world_wf(*self),
                v@ == spec_xs_of(self.objects@.take(i as int), *r),
            decreases self.objects@.len() - i,
        {
            let mut found = self.objects[i].intersect(r);
            v.append(&mut found.intersections);
            proof {
                assert(self.objects@.take(i as int + 1).drop_last() =~= self.objects@.take(
                    i as int,
                ));
                assert(self.objects@.take(i as int + 1).last() == self.objects@[i as int]);
            }
            i = i + 1;
        }
        proof {
            assert(self.objects@.take(self.objects@.len() as int) =~= self.objects@);
        }
        let sorted = sort_intersections(v);
        proof {
            lemma_sort_by_t_properties(spec_xs_of(self.objects@, *r));
        }
        Intersections::new(sorted)
    }

    /// Phong-shade a prepared intersection, testing the shadow at its
    /// `over_point`. The world must hold a light.
    pub fn shade_hit(&self, comps: &Computations) -> (c: Color)
        requires
            world_wf(*self),
            self.light is Some,
            spec_invertible(comps.obj.transform),
            pattern_wf(comps.obj.material.pattern),
        ensures
            c == spec_shade_hit(*self, *comps),
    {
        let light = self.light.unwrap();
        let in_shadow = self.is_shadowed(&comps.over_point);
        comps.obj.material.lighting(
            &comps.obj,
            light,
            comps.over_point,
            comps.eyev,
            comps.normalv,
            in_shadow,
        )
    }

    /// The color the ray resolves to: shade the nearest non-negative hit,
    /// or black when the ray misses everything. A light is needed only
    /// when something is hit.
    pub fn color_at(&self, r: &Ray) -> (c: Color)
        requires
            world_wf(*self),
            world_materials_wf(*self),
            spec_hit_of_ray(*self, *r) is Some ==> self.light is Some,
        ensures
            c == spec_color_at(*self, *r),
    {
        proof {
            reveal(spec_color_at);
            reveal(spec_hit_of_ray);
        }
        let xs = self.intersect(r);
        let h = xs.hit();
        match h {
            Some(hit) => {
                proof {
                    crate::intersection::lemma_hit_properties(xs.intersections@);
                    assert(xs.intersections@.contains(hit));
                    assert(xs.intersections@.to_multiset().contains(hit));
                    assert(spec_xs_of(self.objects@, *r).to_multiset().contains(hit));
                    assert(spec_xs_of(self.objects@, *r).contains(hit));
                    lemma_xs_member(self.objects@, *r, hit);
                }
                let comps = hit.prepare_computations(r);
                self.shade_hit(&comps)
            },
            None => Color::black(),
        }
    }

    /// Whether the light is occluded from `p`: the point is shadowed when
    /// some intersection toward the light lies strictly closer than the
    /// light itself. The world must hold a light.
    pub fn is_shadowed(&self, p: &Tuple) -> (b: bool)
        requires
            world_wf(*self),
            self.light is Some,
        ensures
            b == spec_is_shadowed(*self, *p),
    {
        let light = self.light.unwrap();
        let v = light.position.sub(*p);
        let distance = v.magnitude();
        let direction = v.normalize_or_zero();
        let r = Ray::new(*p, direction);
        let h = self.intersect(&r).hit();
        match h {
            Some(hit) => hit.t.raw < distance.raw,
            None => false,
        }
    }
}

} // verus!
