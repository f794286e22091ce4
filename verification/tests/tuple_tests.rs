use raytracer::fx::Fx;
use raytracer::tuple::point;
use raytracer::tuple::vector;
use raytracer::tuple::Tuple;

fn fx(v: f64) -> Fx {
    Fx { raw: (v * 1e9).round() as i64 }
}

fn tup(x: f64, y: f64, z: f64, w: f64) -> Tuple {
    Tuple::new(fx(x), fx(y), fx(z), fx(w))
}

fn pt(x: f64, y: f64, z: f64) -> Tuple {
    point(fx(x), fx(y), fx(z))
}

fn vc(x: f64, y: f64, z: f64) -> Tuple {
    vector(fx(x), fx(y), fx(z))
}

#[test]
fn new_tuple_point() {
    let p = Tuple::new(fx(4.3), fx(-4.2), fx(3.1), fx(1.0));
    assert_eq!(fx(4.3), p.x);
    assert_eq!(fx(-4.2), p.y);
    assert_eq!(fx(3.1), p.z);
    assert_eq!(fx(1.0), p.w);
    assert!(p.is_point());
    assert!(!p.is_vector());
}

#[test]
fn new_tuple_vector() {
    let v = Tuple::new(fx(4.3), fx(-4.2), fx(3.1), fx(0.0));
    assert_eq!(fx(4.3), v.x);
    assert_eq!(fx(-4.2), v.y);
    assert_eq!(fx(3.1), v.z);
    assert_eq!(fx(0.0), v.w);
    assert!(!v.is_point());
    assert!(v.is_vector());
}

#[test]
fn new_point() {
    assert!(pt(4.0, -4.0, 3.0).approx_eq(&tup(4.0, -4.0, 3.0, 1.0)));
}

#[test]
fn new_vector() {
    assert!(vc(4.0, -4.0, 3.0).approx_eq(&tup(4.0, -4.0, 3.0, 0.0)));
}

#[test]
fn add_vector_to_point() {
    let a1 = tup(3.0, -2.0, 5.0, 1.0);
    let a2 = tup(-2.0, 3.0, 1.0, 0.0);
    assert!(a1.add(a2).approx_eq(&tup(1.0, 1.0, 6.0, 1.0)));
}

#[test]
fn subtract_point_from_point() {
    let p1 = pt(3.0, 2.0, 1.0);
    let p2 = pt(5.0, 6.0, 7.0);
    assert!(p1.sub(p2).approx_eq(&vc(-2.0, -4.0, -6.0)));
}

#[test]
fn subtract_vector_from_point() {
    let p = pt(3.0, 2.0, 1.0);
    let v = vc(5.0, 6.0, 7.0);
    assert!(p.sub(v).approx_eq(&pt(-2.0, -4.0, -6.0)));
}

#[test]
fn subtract_vector_from_vector() {
    let v1 = vc(3.0, 2.0, 1.0);
    let v2 = vc(5.0, 6.0, 7.0);
    assert!(v1.sub(v2).approx_eq(&vc(-2.0, -4.0, -6.0)));
}

#[test]
fn subtract_zero_from_vector() {
    let zero = vc(0.0, 0.0, 0.0);
    let v = vc(1.0, -2.0, 3.0);
    assert!(zero.sub(v).approx_eq(&vc(-1.0, 2.0, -3.0)));
}

#[test]
fn negate_tuple() {
    assert!(vc(-1.0, 2.0, 3.0).neg().approx_eq(&vc(1.0, -2.0, -3.0)));
}

#[test]
fn multiply_by_scalar() {
    assert!(tup(1.0, -2.0, 3.0, -4.0).scale(fx(3.5)).approx_eq(&tup(3.5, -7.0, 10.5, -14.0)));
}

#[test]
fn multiply_by_fraction() {
    assert!(tup(1.0, -2.0, 3.0, -4.0).scale(fx(0.5)).approx_eq(&tup(0.5, -1.0, 1.5, -2.0)));
}

#[test]
fn divide_by_scalar() {
    assert!(tup(1.0, -2.0, 3.0, -4.0).div_scalar(fx(2.0)).approx_eq(&tup(0.5, -1.0, 1.5, -2.0)));
}

#[test]
fn magnitude_of_vector() {
    assert!(vc(1.0, 0.0, 0.0).magnitude().approx_eq(fx(1.0)));
    assert!(vc(0.0, 1.0, 0.0).magnitude().approx_eq(fx(1.0)));
    assert!(vc(0.0, 0.0, 1.0).magnitude().approx_eq(fx(1.0)));
    assert!(vc(1.0, 2.0, 3.0).magnitude().approx_eq(fx(14.0_f64.sqrt())));
    assert!(vc(-1.0, -2.0, -3.0).magnitude().approx_eq(fx(14.0_f64.sqrt())));
}

#[test]
fn normalizing_vector() {
    assert!(vc(4.0, 0.0, 0.0).normalize().approx_eq(&vc(1.0, 0.0, 0.0)));
    assert!(vc(1.0, 2.0, 3.0).normalize().approx_eq(&vc(0.26726124, 0.5345225, 0.8017837)));
}

#[test]
fn magnitude_of_normal_vector() {
    assert!(vc(1.0, 2.0, 3.0).normalize().magnitude().approx_eq(fx(1.0)));
}

#[test]
fn tuple_dot_product() {
    assert!(vc(1.0, 2.0, 3.0).dot(&vc(2.0, 3.0, 4.0)).approx_eq(fx(20.0)));
}

#[test]
fn vector_cross_product() {
    let a = vc(1.0, 2.0, 3.0);
    let b = vc(2.0, 3.0, 4.0);
    assert!(a.cross(&b).approx_eq(&vc(-1.0, 2.0, -1.0)));
    assert!(b.cross(&a).approx_eq(&vc(1.0, -2.0, 1.0)));
}

#[test]
fn reflecting_vector_at_45() {
    let v = vc(1.0, -1.0, 0.0);
    let n = vc(0.0, 1.0, 0.0);
    assert!(v.reflect(&n).approx_eq(&vc(1.0, 1.0, 0.0)));
}

#[test]
fn reflecting_vector_from_slant() {
    let v = vc(0.0, -1.0, 0.0);
    let a = 2.0_f64.sqrt() / 2.0;
    let n = vc(a, a, 0.0);
    assert!(v.reflect(&n).approx_eq(&vc(1.0, 0.0, 0.0)));
}

#[test]
fn get_and_set_components() {
    let mut t = tup(1.0, 2.0, 3.0, 0.0);
    assert_eq!(t.get(0), fx(1.0));
    assert_eq!(t.get(3), fx(0.0));
    t.set(1, fx(9.0));
    assert_eq!(t.get(1), fx(9.0));
}

#[test]
fn normalize_magnitude_stays_near_one() {
    let v = vc(0.05, -0.08, 0.02);
    assert!(v.normalize().magnitude().approx_eq(fx(1.0)));
    let w = vc(250.0, -130.0, 40.0);
    assert!(w.normalize().magnitude().approx_eq(fx(1.0)));
}
