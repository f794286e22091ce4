use raytracer::fx::Fx;
use raytracer::fx::EPSILON_RAW;
use raytracer::intersection::Intersection;
use raytracer::intersection::Intersections;
use raytracer::matrix::Matrix4;
use raytracer::ray::Ray;
use raytracer::shape::Shape;
use raytracer::tuple::point;
use raytracer::tuple::vector;
use raytracer::tuple::Tuple;

fn fx(v: f64) -> Fx {
    Fx { raw: (v * 1e9).round() as i64 }
}

fn pt(x: f64, y: f64, z: f64) -> Tuple {
    point(fx(x), fx(y), fx(z))
}

fn vc(x: f64, y: f64, z: f64) -> Tuple {
    vector(fx(x), fx(y), fx(z))
}

#[test]
fn interections() {
    let s = Shape::sphere();
    let a = Intersection::new(fx(1.0), s.clone());
    let b = Intersection::new(fx(2.0), s);
    let i = Intersections::new(vec![a.clone(), b]);
    assert_eq!(2, i.len());
    assert_eq!(a.t, i.at(0).t);
    assert_eq!(a.obj.get_id(), i.at(0).obj.get_id());
}

#[test]
fn hit_all_pos() {
    let s = Shape::sphere();
    let a = Intersection::new(fx(1.0), s.clone());
    let b = Intersection::new(fx(2.0), s);
    let i = Intersections::new(vec![a.clone(), b]);
    let h = i.hit().unwrap();
    assert_eq!(a.t, h.t);
    assert_eq!(a.obj.get_id(), h.obj.get_id());
}

#[test]
fn hit_neg_pos() {
    let s = Shape::sphere();
    let a = Intersection::new(fx(-1.0), s.clone());
    let b = Intersection::new(fx(2.0), s);
    let i = Intersections::new(vec![a, b.clone()]);
    let h = i.hit().unwrap();
    assert_eq!(b.t, h.t);
    assert_eq!(b.obj.get_id(), h.obj.get_id());
}

#[test]
fn hit_neg() {
    let s = Shape::sphere();
    let a = Intersection::new(fx(-1.0), s.clone());
    let b = Intersection::new(fx(-2.0), s);
    let i = Intersections::new(vec![a, b]);
    assert!(i.hit().is_none());
}

#[test]
fn hit_order() {
    let s = Shape::sphere();
    let a = Intersection::new(fx(5.0), s.clone());
    let b = Intersection::new(fx(7.0), s.clone());
    let c = Intersection::new(fx(-3.0), s.clone());
    let d = Intersection::new(fx(2.0), s);
    let i = Intersections::new(vec![a, b, c, d.clone()]);
    let h = i.hit().unwrap();
    assert_eq!(d.t, h.t);
    assert_eq!(d.obj.get_id(), h.obj.get_id());
}

#[test]
fn precomputing_state_of_intersection() {
    let r = Ray::new(pt(0.0, 0.0, -5.0), vc(0.0, 0.0, 1.0));
    let shape = Shape::sphere();
    let i = Intersection::new(fx(4.0), shape);
    let comps = i.prepare_computations(&r);
    assert_eq!(comps.t, i.t);
    assert_eq!(comps.obj.get_id(), i.obj.get_id());
    assert!(comps.point.approx_eq(&pt(0.0, 0.0, -1.0)));
    assert!(comps.eyev.approx_eq(&vc(0.0, 0.0, -1.0)));
    assert!(comps.normalv.approx_eq(&vc(0.0, 0.0, -1.0)));
}

#[test]
fn precomputing_state_of_intersection_outside() {
    let r = Ray::new(pt(0.0, 0.0, -5.0), vc(0.0, 0.0, 1.0));
    let shape = Shape::sphere();
    let i = Intersection::new(fx(4.0), shape);
    let comps = i.prepare_computations(&r);
    assert_eq!(comps.inside, false);
}

#[test]
fn precomputing_state_of_intersection_inside() {
    let r = Ray::new(pt(0.0, 0.0, 0.0), vc(0.0, 0.0, 1.0));
    let shape = Shape::sphere();
    let i = Intersection::new(fx(1.0), shape);
    let comps = i.prepare_computations(&r);
    assert_eq!(comps.inside, true);
    assert!(comps.point.approx_eq(&pt(0.0, 0.0, 1.0)));
    assert!(comps.eyev.approx_eq(&vc(0.0, 0.0, -1.0)));
    assert!(comps.normalv.approx_eq(&vc(0.0, 0.0, -1.0)));
}

#[test]
fn hit_should_offset_the_point() {
    let r = Ray::new(pt(0.0, 0.0, -5.0), vc(0.0, 0.0, 1.0));
    let mut shape = Shape::sphere();
    shape.transform = Matrix4::translation(fx(0.0), fx(0.0), fx(1.0));
    let i = Intersection::new(fx(5.0), shape);
    let comps = i.prepare_computations(&r);
    assert!(comps.over_point.z.raw < -EPSILON_RAW / 2);
    assert!(comps.point.z.raw > comps.over_point.z.raw);
}
