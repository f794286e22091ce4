use raytracer::camera::Camera;
use raytracer::color::Color;
use raytracer::fx::Fx;
use raytracer::fx::EPSILON_RAW;
use raytracer::matrix::Matrix4;
use raytracer::tuple::point;
use raytracer::tuple::vector;
use raytracer::tuple::Tuple;
use raytracer::world::World;

fn fx(v: f64) -> Fx {
    Fx { raw: (v * 1e9).round() as i64 }
}

fn pt(x: f64, y: f64, z: f64) -> Tuple {
    point(fx(x), fx(y), fx(z))
}

fn vc(x: f64, y: f64, z: f64) -> Tuple {
    vector(fx(x), fx(y), fx(z))
}

const PI: f64 = std::f64::consts::PI;

#[test]
fn create_camera() {
    let c = Camera::new(160, 120, fx(PI / 2.0));
    assert_eq!(c.hsize, 160);
    assert_eq!(c.vsize, 120);
    assert!((c.fov.raw - fx(PI / 2.0).raw).abs() < EPSILON_RAW);
}

#[test]
fn camera_pixel_size_h() {
    let c = Camera::new(200, 125, fx(PI / 2.0));
    assert!(c.pixel_size.approx_eq(fx(0.01)));
}

#[test]
fn camera_pixel_size_v() {
    let c = Camera::new(125, 200, fx(PI / 2.0));
    assert!(c.pixel_size.approx_eq(fx(0.01)));
}

#[test]
fn ray_through_center() {
    let c = Camera::new(201, 101, fx(PI / 2.0));
    let r = c.ray_for_pixel(100, 50);
    assert!(r.origin.approx_eq(&pt(0.0, 0.0, 0.0)));
    assert!(r.direction.approx_eq(&vc(0.0, 0.0, -1.0)));
}

#[test]
fn ray_through_corner() {
    let c = Camera::new(201, 101, fx(PI / 2.0));
    let r = c.ray_for_pixel(0, 0);
    assert!(r.origin.approx_eq(&pt(0.0, 0.0, 0.0)));
    assert!(r.direction.approx_eq(&vc(0.66519, 0.33259, -0.66851)));
}

#[test]
fn ray_with_transform() {
    let mut c = Camera::new(201, 101, fx(PI / 2.0));
    c.transform = Matrix4::rotation_y(fx(PI / 4.0)).mul(&Matrix4::translation(
        fx(0.0),
        fx(-2.0),
        fx(5.0),
    ));
    let r = c.ray_for_pixel(100, 50);
    let a = 2.0_f64.sqrt() / 2.0;
    assert!(r.origin.approx_eq(&pt(0.0, 2.0, -5.0)));
    assert!(r.direction.approx_eq(&vc(a, 0.0, -a)));
}

#[test]
fn render_the_world() {
    let w = World::default();
    let mut c = Camera::new(11, 11, fx(PI / 2.0));
    c.transform = Matrix4::view_transform(
        pt(0.0, 0.0, -5.0),
        pt(0.0, 0.0, 0.0),
        vc(0.0, 1.0, 0.0),
    );
    let image = c.render(&w);
    assert!(image.pixel_at(5, 5).approx_eq(&Color::new(fx(0.38066), fx(0.47583), fx(0.2855))));
}
