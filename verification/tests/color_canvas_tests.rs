use raytracer::canvas::Canvas;
use raytracer::color::Color;
use raytracer::fx::Fx;
use raytracer::fx::MAX_RAW;

fn fx(v: f64) -> Fx {
    Fx { raw: (v * 1e9).round() as i64 }
}

fn col(r: f64, g: f64, b: f64) -> Color {
    Color::new(fx(r), fx(g), fx(b))
}

#[test]
fn colors_are_tuples() {
    let c = col(-0.5, 0.4, 1.7);
    assert_eq!(c.red, fx(-0.5));
    assert_eq!(c.green, fx(0.4));
    assert_eq!(c.blue, fx(1.7));
}

#[test]
fn add_colors() {
    let c1 = col(0.9, 0.6, 0.75);
    let c2 = col(0.7, 0.1, 0.25);
    assert!(c1.add(c2).approx_eq(&col(1.6, 0.7, 1.0)));
}

#[test]
fn subtract_colors() {
    let c1 = col(0.9, 0.6, 0.75);
    let c2 = col(0.7, 0.1, 0.25);
    assert!(c1.sub(c2).approx_eq(&col(0.2, 0.5, 0.5)));
}

#[test]
fn multiply_colors_by_scalar() {
    assert!(col(0.2, 0.3, 0.4).scale(fx(2.0)).approx_eq(&col(0.4, 0.6, 0.8)));
}

#[test]
fn multiply_colors_by_color() {
    let c1 = col(1.0, 0.2, 0.4);
    let c2 = col(0.9, 1.0, 0.1);
    assert!(c1.mul(c2).approx_eq(&col(0.9, 0.2, 0.04)));
}

#[test]
fn black_is_black() {
    let c = Color::black();
    assert!(c.is_black());
    assert!(c.approx_eq(&col(0.0, 0.0, 0.0)));
}

#[test]
fn white_is_white() {
    let c = Color::white();
    assert!(c.is_white());
    assert!(c.approx_eq(&col(1.0, 1.0, 1.0)));
}

#[test]
fn create_canvas() {
    let canvas = Canvas::new(10, 20);
    assert_eq!(10, canvas.width);
    assert_eq!(20, canvas.height);
    assert_eq!(200, canvas.pixels.len());
    assert!(canvas.pixels.iter().all(|c| c.is_black()));
}

#[test]
fn write_pixel_to_canvas() {
    let mut canvas = Canvas::new(10, 20);
    let red = Color::red();
    canvas.write_pixel(2, 3, red);
    assert!(red.approx_eq(&canvas.pixel_at(2, 3)));
}

#[test]
fn write_pixel_out_of_bounds_is_ignored() {
    let mut canvas = Canvas::new(4, 4);
    canvas.write_pixel(7, 1, Color::white());
    assert!(canvas.pixels.iter().all(|c| c.is_black()));
}

#[test]
fn fill_canvas() {
    let mut canvas = Canvas::new(3, 2);
    canvas.fill(col(0.25, 0.5, 0.75));
    assert!(canvas.pixel_at(2, 1).approx_eq(&col(0.25, 0.5, 0.75)));
}

#[test]
fn scalar_saturates_at_bounds() {
    let big = Fx::from_int(2_000_000);
    assert_eq!(big.raw, MAX_RAW);
    let small = Fx::from_raw(-2 * MAX_RAW);
    assert_eq!(small.raw, -MAX_RAW);
}

#[test]
fn scalar_sqrt_and_pow() {
    assert_eq!(fx(9.0).sqrt(), fx(3.0));
    assert_eq!(fx(2.0).powi(10), fx(1024.0));
    assert_eq!(fx(-4.0).sqrt(), fx(0.0));
}
