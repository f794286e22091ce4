use raytracer::fx::Fx;
use raytracer::matrix::Matrix4;
use raytracer::ray::Ray;
use raytracer::shape::Plane;
use raytracer::shape::Shape;
use raytracer::tuple::point;
use raytracer::tuple::vector;
use raytracer::tuple::Tuple;

fn fx(v: f64) -> Fx {
    Fx { raw: (v * 1e9).round() as i64 }
}

fn pt(x: f64, y: f64, z: f64) -> Tuple {
    point(fx(x), fx(y), fx(z))
}

fn vc(x: f64, y: f64, z: f64) -> Tuple {
    vector(fx(x), fx(y), fx(z))
}

fn approx4(a: &Matrix4, b: &Matrix4) -> bool {
    for r in 0..4 {
        for c in 0..4 {
            if !a.get(r, c).approx_eq(b.get(r, c)) {
                return false;
            }
        }
    }
    true
}

const PI: f64 = std::f64::consts::PI;

#[test]
fn mod_default_transform() {
    let s = Shape::test();
    assert!(approx4(&s.transform, &Matrix4::identity()));
}

#[test]
fn mod_assign_transform() {
    let mut s = Shape::test();
    s.transform = Matrix4::translation(fx(2.0), fx(3.0), fx(4.0));
    assert!(approx4(&s.transform, &Matrix4::translation(fx(2.0), fx(3.0), fx(4.0))));
}

#[test]
fn mod_default_material() {
    let s = Shape::test();
    let m = raytracer::material::Material::new();
    assert_eq!(s.material.ambient, m.ambient);
    assert_eq!(s.material.diffuse, m.diffuse);
    assert_eq!(s.material.specular, m.specular);
    assert_eq!(s.material.shininess, m.shininess);
}

#[test]
fn mod_assign_material() {
    let mut s = Shape::test();
    let mut m = raytracer::material::Material::new();
    m.ambient = fx(1.0);
    s.material = m;
    assert_eq!(s.material.ambient, fx(1.0));
}

#[test]
fn sphere_default_transformation() {
    let s = Shape::sphere();
    assert!(approx4(&Matrix4::identity(), &s.transform));
}

#[test]
fn normal_at_point_on_x() {
    let s = Shape::sphere();
    let n = s.normal_at(pt(1.0, 0.0, 0.0));
    assert!(vc(1.0, 0.0, 0.0).approx_eq(&n));
}

#[test]
fn normal_at_point_on_y() {
    let s = Shape::sphere();
    let n = s.normal_at(pt(0.0, 1.0, 0.0));
    assert!(vc(0.0, 1.0, 0.0).approx_eq(&n));
}

#[test]
fn normal_at_point_on_z() {
    let s = Shape::sphere();
    let n = s.normal_at(pt(0.0, 0.0, 1.0));
    assert!(vc(0.0, 0.0, 1.0).approx_eq(&n));
}

#[test]
fn normal_at_point_on_nonaxial() {
    let s = Shape::sphere();
    let v = 3.0_f64.sqrt() / 3.0;
    let n = s.normal_at(pt(v, v, v));
    assert!(vc(v, v, v).approx_eq(&n));
}

#[test]
fn normal_of_translated_sphere() {
    let mut s = Shape::sphere();
    s.transform = Matrix4::translation(fx(0.0), fx(1.0), fx(0.0));
    let n = s.normal_at(pt(0.0, 1.70711, -0.70711));
    assert!(vc(0.0, 0.70711, -0.70711).approx_eq(&n));
}

#[test]
fn normal_of_transformed_sphere() {
    let mut s = Shape::sphere();
    s.transform = Matrix4::scaling(fx(1.0), fx(0.5), fx(1.0)).mul(&Matrix4::rotation_z(fx(
        PI / 5.0,
    )));
    let v = 2.0_f64.sqrt() / 2.0;
    let n = s.normal_at(pt(0.0, v, -v));
    assert!(vc(0.0, 0.97014, -0.24254).approx_eq(&n));
}

#[test]
fn sphere_assign_material() {
    let mut s = Shape::sphere();
    let mut m = raytracer::material::Material::new();
    m.ambient = fx(1.0);
    s.material = m;
    assert_eq!(fx(1.0), s.material.ambient);
}

#[test]
fn plane_normal_of_plane_is_constant() {
    let p = Plane::new();
    let n1 = p.local_normal_at(pt(0.0, 0.0, 0.0));
    let n2 = p.local_normal_at(pt(10.0, 0.0, -10.0));
    let n3 = p.local_normal_at(pt(-5.0, 0.0, 150.0));
    assert!(n1.approx_eq(&vc(0.0, 1.0, 0.0)));
    assert!(n2.approx_eq(&vc(0.0, 1.0, 0.0)));
    assert!(n3.approx_eq(&vc(0.0, 1.0, 0.0)));
}

#[test]
fn plane_intersect_ray_parallel() {
    let p = Shape::plane();
    let r = Ray::new(pt(0.0, 10.0, 0.0), vc(0.0, 0.0, 1.0));
    assert_eq!(0, p.intersect(&r).len());
}

#[test]
fn plane_intersect_ray_coplanar() {
    let p = Shape::plane();
    let r = Ray::new(pt(0.0, 0.0, 0.0), vc(0.0, 0.0, 1.0));
    assert_eq!(0, p.intersect(&r).len());
}

#[test]
fn plane_intersect_ray_above() {
    let p = Shape::plane();
    let r = Ray::new(pt(0.0, 1.0, 0.0), vc(0.0, -1.0, 0.0));
    let xs = p.intersect(&r);
    assert_eq!(1, xs.len());
    assert!(xs.at(0).t.approx_eq(fx(1.0)));
    assert_eq!(xs.at(0).obj.get_id(), p.get_id());
}

#[test]
fn plane_intersect_ray_below() {
    let p = Shape::plane();
    let r = Ray::new(pt(0.0, -1.0, 0.0), vc(0.0, 1.0, 0.0));
    let xs = p.intersect(&r);
    assert_eq!(1, xs.len());
    assert!(xs.at(0).t.approx_eq(fx(1.0)));
    assert_eq!(xs.at(0).obj.get_id(), p.get_id());
}

#[test]
fn intersect_ray_almost_parallel_counts_as_parallel() {
    let p = Shape::plane();
    let r = Ray::new(pt(0.0, 1.0, 0.0), vc(1.0, -0.000001, 0.0));
    assert_eq!(0, p.intersect(&r).len());
}
