use raytracer::fx::Fx;
use raytracer::matrix::Matrix4;
use raytracer::ray::Ray;
use raytracer::shape::Shape;
use raytracer::tuple::point;
use raytracer::tuple::vector;
use raytracer::tuple::Tuple;

fn fx(v: f64) -> Fx {
    Fx { raw: (v * 1e9).round() as i64 }
}

fn pt(x: f64, y: f64, z: f64) -> Tuple {
    point(fx(x), fx(y), fx(z))
}

fn vc(x: f64, y: f64, z: f64) -> Tuple {
    vector(fx(x), fx(y), fx(z))
}

#[test]
fn create_ray() {
    let o = pt(1.0, 2.0, 3.0);
    let d = vc(4.0, 5.0, 6.0);
    let r = Ray::new(o, d);
    assert!(o.approx_eq(&r.origin));
    assert!(d.approx_eq(&r.direction));
}

#[test]
fn point_from_distance() {
    let o = pt(2.0, 3.0, 4.0);
    let d = vc(1.0, 0.0, 0.0);
    let r = Ray::new(o, d);
    assert!(r.position(fx(0.0)).approx_eq(&pt(2.0, 3.0, 4.0)));
    assert!(r.position(fx(-1.0)).approx_eq(&pt(1.0, 3.0, 4.0)));
    assert!(r.position(fx(2.5)).approx_eq(&pt(4.5, 3.0, 4.0)));
}

#[test]
fn ray_intersects_sphere_twice() {
    let r = Ray::new(pt(0.0, 0.0, -5.0), vc(0.0, 0.0, 1.0));
    let s = Shape::sphere();
    let xs = s.intersect(&r);
    assert_eq!(2, xs.len());
    assert!(xs.at(0).t.approx_eq(fx(4.0)));
    assert!(xs.at(1).t.approx_eq(fx(6.0)));
}

#[test]
fn ray_intersects_sphere_tangent() {
    let r = Ray::new(pt(0.0, 1.0, -5.0), vc(0.0, 0.0, 1.0));
    let s = Shape::sphere();
    let xs = s.intersect(&r);
    assert_eq!(2, xs.len());
    assert!(xs.at(0).t.approx_eq(fx(5.0)));
    assert!(xs.at(1).t.approx_eq(fx(5.0)));
}

#[test]
fn ray_misses_sphere() {
    let r = Ray::new(pt(0.0, 2.0, -5.0), vc(0.0, 0.0, 1.0));
    let s = Shape::sphere();
    let xs = s.intersect(&r);
    assert_eq!(0, xs.len());
}

#[test]
fn ray_inside_sphere() {
    let r = Ray::new(pt(0.0, 0.0, 0.0), vc(0.0, 0.0, 1.0));
    let s = Shape::sphere();
    let xs = s.intersect(&r);
    assert_eq!(2, xs.len());
    assert!(xs.at(0).t.approx_eq(fx(-1.0)));
    assert!(xs.at(1).t.approx_eq(fx(1.0)));
}

#[test]
fn ray_behind_sphere() {
    let r = Ray::new(pt(0.0, 0.0, 5.0), vc(0.0, 0.0, 1.0));
    let s = Shape::sphere();
    let xs = s.intersect(&r);
    assert_eq!(2, xs.len());
    assert!(xs.at(0).t.approx_eq(fx(-6.0)));
    assert!(xs.at(1).t.approx_eq(fx(-4.0)));
}

#[test]
fn translate_ray() {
    let r = Ray::new(pt(1.0, 2.0, 3.0), vc(0.0, 1.0, 0.0));
    let m = Matrix4::translation(fx(3.0), fx(4.0), fx(5.0));
    let r2 = r.transform(m);
    assert!(r2.origin.approx_eq(&pt(4.0, 6.0, 8.0)));
    assert!(r2.direction.approx_eq(&vc(0.0, 1.0, 0.0)));
}

#[test]
fn scale_ray() {
    let r = Ray::new(pt(1.0, 2.0, 3.0), vc(0.0, 1.0, 0.0));
    let m = Matrix4::scaling(fx(2.0), fx(3.0), fx(4.0));
    let r2 = r.transform(m);
    assert!(r2.origin.approx_eq(&pt(2.0, 6.0, 12.0)));
    assert!(r2.direction.approx_eq(&vc(0.0, 3.0, 0.0)));
}

#[test]
fn intersect_ray_with_scaled_sphere() {
    let r = Ray::new(pt(0.0, 0.0, -5.0), vc(0.0, 0.0, 1.0));
    let mut s = Shape::sphere();
    s.transform = Matrix4::scaling(fx(2.0), fx(2.0), fx(2.0));
    let xs = s.intersect(&r);
    assert_eq!(2, xs.len());
    assert!(xs.at(0).t.approx_eq(fx(3.0)));
    assert!(xs.at(1).t.approx_eq(fx(7.0)));
}

#[test]
fn intersect_ray_with_translated_sphere() {
    let r = Ray::new(pt(0.0, 0.0, -5.0), vc(0.0, 0.0, 1.0));
    let mut s = Shape::sphere();
    s.transform = Matrix4::translation(fx(5.0), fx(0.0), fx(0.0));
    let xs = s.intersect(&r);
    assert_eq!(0, xs.len());
}

#[test]
fn ray_round_trip_through_translation() {
    let r = Ray::new(pt(1.0, -2.5, 3.0), vc(0.25, 1.0, -0.75));
    let m = Matrix4::translation(fx(3.0), fx(-4.5), fx(5.0));
    let r2 = r.transform(m).transform(m.inverse());
    assert_eq!(r2, r);
}
