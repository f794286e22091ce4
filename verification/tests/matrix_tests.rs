use raytracer::fx::Fx;
use raytracer::matrix::Matrix2;
use raytracer::matrix::Matrix3;
use raytracer::matrix::Matrix4;
use raytracer::tuple::Tuple;

fn fx(v: f64) -> Fx {
    Fx { raw: (v * 1e9).round() as i64 }
}

fn m4(rows: [[f64; 4]; 4]) -> Matrix4 {
    let mut data = [[fx(0.0); 4]; 4];
    for r in 0..4 {
        for c in 0..4 {
            data[r][c] = fx(rows[r][c]);
        }
    }
    Matrix4::new(data)
}

fn m3(rows: [[f64; 3]; 3]) -> Matrix3 {
    let mut data = [[fx(0.0); 3]; 3];
    for r in 0..3 {
        for c in 0..3 {
            data[r][c] = fx(rows[r][c]);
        }
    }
    Matrix3::new(data)
}

fn m2(rows: [[f64; 2]; 2]) -> Matrix2 {
    let mut data = [[fx(0.0); 2]; 2];
    for r in 0..2 {
        for c in 0..2 {
            data[r][c] = fx(rows[r][c]);
        }
    }
    Matrix2::new(data)
}

fn approx4(a: &Matrix4, b: &Matrix4) -> bool {
    for r in 0..4 {
        for c in 0..4 {
            if !a.get(r, c).approx_eq(b.get(r, c)) {
                return false;
            }
        }
    }
    true
}

fn approx3(a: &Matrix3, b: &Matrix3) -> bool {
    for r in 0..3 {
        for c in 0..3 {
            if !a.get(r, c).approx_eq(b.get(r, c)) {
                return false;
            }
        }
    }
    true
}

fn approx2(a: &Matrix2, b: &Matrix2) -> bool {
    for r in 0..2 {
        for c in 0..2 {
            if !a.get(r, c).approx_eq(b.get(r, c)) {
                return false;
            }
        }
    }
    true
}

fn tup(x: f64, y: f64, z: f64, w: f64) -> Tuple {
    Tuple::new(fx(x), fx(y), fx(z), fx(w))
}

fn pt(x: f64, y: f64, z: f64) -> Tuple {
    Tuple::point(fx(x), fx(y), fx(z))
}

fn vc(x: f64, y: f64, z: f64) -> Tuple {
    Tuple::vector(fx(x), fx(y), fx(z))
}

const PI: f64 = std::f64::consts::PI;

#[test]
fn basic_4x4() {
    let m = m4([
        [1.0, 2.0, 3.0, 4.0],
        [5.5, 6.5, 7.5, 8.5],
        [9.0, 10.0, 11.0, 12.0],
        [13.5, 14.5, 15.5, 16.5],
    ]);
    assert_eq!(fx(1.0), m.get(0, 0));
    assert_eq!(fx(4.0), m.get(0, 3));
    assert_eq!(fx(5.5), m.get(1, 0));
    assert_eq!(fx(7.5), m.get(1, 2));
    assert_eq!(fx(11.0), m.get(2, 2));
    assert_eq!(fx(13.5), m.get(3, 0));
    assert_eq!(fx(15.5), m.get(3, 2));
}

#[test]
fn basic_3x3() {
    let m = m3([[-3.0, 5.0, 0.0], [1.0, -2.0, -7.0], [0.0, 1.0, 1.0]]);
    assert_eq!(fx(-3.0), m.get(0, 0));
    assert_eq!(fx(-2.0), m.get(1, 1));
    assert_eq!(fx(1.0), m.get(2, 2));
}

#[test]
fn basic_2x2() {
    let m = m2([[-3.0, 5.0], [1.0, -2.0]]);
    assert_eq!(fx(-3.0), m.get(0, 0));
    assert_eq!(fx(5.0), m.get(0, 1));
    assert_eq!(fx(1.0), m.get(1, 0));
    assert_eq!(fx(-2.0), m.get(1, 1));
}

#[test]
fn matrix_equality() {
    let m1 = m4([
        [1.0, 2.0, 3.0, 4.0],
        [5.0, 6.0, 7.0, 8.0],
        [9.0, 8.0, 7.0, 6.0],
        [5.0, 4.0, 3.0, 2.0],
    ]);
    let m2 = m4([
        [1.0, 2.0, 3.0, 4.0],
        [5.0, 6.0, 7.0, 8.0],
        [9.0, 8.0, 7.0, 6.0],
        [5.0, 4.0, 3.0, 2.0],
    ]);
    assert_eq!(m1, m2);
}

#[test]
fn matrix_equality_ne() {
    let m1 = m4([
        [1.0, 2.0, 3.0, 4.0],
        [5.0, 6.0, 7.0, 8.0],
        [9.0, 8.0, 7.0, 6.0],
        [5.0, 4.0, 3.0, 2.0],
    ]);
    let m2 = m4([
        [2.0, 3.0, 4.0, 5.0],
        [6.0, 7.0, 8.0, 9.0],
        [8.0, 7.0, 6.0, 5.0],
        [4.0, 3.0, 2.0, 1.0],
    ]);
    assert!(m1 != m2);
}

#[test]
fn matrix_multiply() {
    let m1 = m4([
        [1.0, 2.0, 3.0, 4.0],
        [5.0, 6.0, 7.0, 8.0],
        [9.0, 8.0, 7.0, 6.0],
        [5.0, 4.0, 3.0, 2.0],
    ]);
    let m2 = m4([
        [-2.0, 1.0, 2.0, 3.0],
        [3.0, 2.0, 1.0, -1.0],
        [4.0, 3.0, 6.0, 5.0],
        [1.0, 2.0, 7.0, 8.0],
    ]);
    let expected = m4([
        [20.0, 22.0, 50.0, 48.0],
        [44.0, 54.0, 114.0, 108.0],
        [40.0, 58.0, 110.0, 102.0],
        [16.0, 26.0, 46.0, 42.0],
    ]);
    assert!(approx4(&expected, &m1.mul(&m2)));
}

#[test]
fn matrix_multiply_with_tuple() {
    let m = m4([
        [1.0, 2.0, 3.0, 4.0],
        [2.0, 4.0, 4.0, 2.0],
        [8.0, 6.0, 4.0, 1.0],
        [0.0, 0.0, 0.0, 1.0],
    ]);
    let t = tup(1.0, 2.0, 3.0, 1.0);
    assert!(m.mul_tuple(&t).approx_eq(&tup(18.0, 24.0, 33.0, 1.0)));
}

#[test]
fn matrix_multiply_with_identity() {
    let m = m4([
        [0.0, 1.0, 2.0, 4.0],
        [1.0, 2.0, 4.0, 8.0],
        [2.0, 4.0, 8.0, 16.0],
        [4.0, 8.0, 16.0, 32.0],
    ]);
    assert!(approx4(&m, &m.mul(&Matrix4::identity())));
}

#[test]
fn matrix_transpose() {
    let m = m4([
        [0.0, 9.0, 3.0, 0.0],
        [9.0, 8.0, 0.0, 8.0],
        [1.0, 8.0, 5.0, 3.0],
        [0.0, 0.0, 5.0, 8.0],
    ]);
    let expected = m4([
        [0.0, 9.0, 1.0, 0.0],
        [9.0, 8.0, 8.0, 0.0],
        [3.0, 0.0, 5.0, 5.0],
        [0.0, 8.0, 3.0, 8.0],
    ]);
    assert!(approx4(&expected, &m.transpose()));
}

#[test]
fn matrix_transpose_identity() {
    assert!(approx4(&Matrix4::identity().transpose(), &Matrix4::identity()));
    assert!(approx3(&Matrix3::identity().transpose(), &Matrix3::identity()));
    assert!(approx2(&Matrix2::identity().transpose(), &Matrix2::identity()));
}

#[test]
fn matrix2_determinant() {
    assert!(fx(17.0).approx_eq(m2([[1.0, 5.0], [-3.0, 2.0]]).determinant()));
}

#[test]
fn submatrix4() {
    let m = m4([
        [-6.0, 1.0, 1.0, 6.0],
        [-8.0, 5.0, 8.0, 6.0],
        [-1.0, 0.0, 8.0, 2.0],
        [-7.0, 1.0, -1.0, 1.0],
    ]);
    let expected = m3([[-6.0, 1.0, 6.0], [-8.0, 8.0, 6.0], [-7.0, -1.0, 1.0]]);
    assert!(approx3(&expected, &m.submatrix(2, 1)));
}

#[test]
fn submatrix3() {
    let m = m3([[1.0, 5.0, 0.0], [-3.0, 2.0, 7.0], [0.0, 6.0, -3.0]]);
    assert!(approx2(&m2([[-3.0, 2.0], [0.0, 6.0]]), &m.submatrix(0, 2)));
}

#[test]
fn minor_matrix3() {
    let a = m3([[3.0, 5.0, 0.0], [2.0, -1.0, -7.0], [6.0, -1.0, 5.0]]);
    let b = a.submatrix(1, 0);
    assert!(fx(25.0).approx_eq(b.determinant()));
    assert!(fx(25.0).approx_eq(a.minor(1, 0)));
}

#[test]
fn matrix3_cofactor() {
    let a = m3([[3.0, 5.0, 0.0], [2.0, -1.0, -7.0], [6.0, -1.0, 5.0]]);
    assert!(fx(-12.0).approx_eq(a.minor(0, 0)));
    assert!(fx(-12.0).approx_eq(a.cofactor(0, 0)));
    assert!(fx(25.0).approx_eq(a.minor(1, 0)));
    assert!(fx(-25.0).approx_eq(a.cofactor(1, 0)));
}

#[test]
fn matrix3_determinent() {
    let a = m3([[1.0, 2.0, 6.0], [-5.0, 8.0, -4.0], [2.0, 6.0, 4.0]]);
    assert!(fx(56.0).approx_eq(a.cofactor(0, 0)));
    assert!(fx(12.0).approx_eq(a.cofactor(0, 1)));
    assert!(fx(-46.0).approx_eq(a.cofactor(0, 2)));
    assert!(fx(-196.0).approx_eq(a.determinant()));
}

#[test]
fn matrix4_determinent() {
    let a = m4([
        [-2.0, -8.0, 3.0, 5.0],
        [-3.0, 1.0, 7.0, 3.0],
        [1.0, 2.0, -9.0, 6.0],
        [-6.0, 7.0, 7.0, -9.0],
    ]);
    assert!(fx(690.0).approx_eq(a.cofactor(0, 0)));
    assert!(fx(447.0).approx_eq(a.cofactor(0, 1)));
    assert!(fx(210.0).approx_eq(a.cofactor(0, 2)));
    assert!(fx(51.0).approx_eq(a.cofactor(0, 3)));
    assert!(fx(-4071.0).approx_eq(a.determinant()));
}

#[test]
fn invertable_matrix() {
    let a = m4([
        [6.0, 4.0, 4.0, 4.0],
        [5.0, 5.0, 7.0, 6.0],
        [4.0, -9.0, 3.0, -7.0],
        [9.0, 1.0, 7.0, -6.0],
    ]);
    assert!(fx(-2120.0).approx_eq(a.determinant()));
    assert!(a.is_invertable());
}

#[test]
fn non_invertable_matrix() {
    let a = m4([
        [4.0, 2.0, -2.0, -3.0],
        [9.0, 6.0, 2.0, 6.0],
        [0.0, -5.0, 1.0, -5.0],
        [0.0, 0.0, 0.0, 0.0],
    ]);
    assert!(fx(0.0).approx_eq(a.determinant()));
    assert!(!a.is_invertable());
}

#[test]
fn matrix_inverse() {
    let a = m4([
        [-5.0, 2.0, 6.0, -8.0],
        [1.0, -5.0, 1.0, 8.0],
        [7.0, 7.0, -6.0, -7.0],
        [1.0, -3.0, 7.0, 4.0],
    ]);
    let b = a.inverse();
    assert!(fx(532.0).approx_eq(a.determinant()));
    assert!(fx(-160.0).approx_eq(a.cofactor(2, 3)));
    assert!(fx(-160.0 / 532.0).approx_eq(b.get(3, 2)));
    assert!(fx(105.0).approx_eq(a.cofactor(3, 2)));
    assert!(fx(105.0 / 532.0).approx_eq(b.get(2, 3)));
    let expected = m4([
        [0.21805, 0.45112783, 0.24060151, -0.04511278],
        [-0.8082707, -1.456767, -0.44360903, 0.5206767],
        [-0.078947365, -0.2236842, -0.05263158, 0.19736843],
        [-0.52255636, -0.81390977, -0.30075186, 0.30639097],
    ]);
    assert!(approx4(&expected, &b));
}

#[test]
fn multiple_matrix_by_its_inverse() {
    let a = m4([
        [3.0, -9.0, 7.0, 3.0],
        [3.0, -8.0, 2.0, -9.0],
        [-4.0, 4.0, 4.0, 1.0],
        [-6.0, 5.0, -1.0, 1.0],
    ]);
    let b = m4([
        [5.0, -9.0, 7.0, 3.0],
        [4.0, -8.0, 2.0, -9.0],
        [-4.0, -4.0, 4.0, 1.0],
        [-9.0, 5.0, -33.0, 1.0],
    ]);
    let c = a.mul(&b);
    assert!(approx4(&a, &c.mul(&b.inverse())));
}

#[test]
fn matrix_times_own_inverse_is_identity() {
    let a = m4([
        [3.0, -9.0, 7.0, 3.0],
        [3.0, -8.0, 2.0, -9.0],
        [-4.0, 4.0, 4.0, 1.0],
        [-6.0, 5.0, -1.0, 1.0],
    ]);
    assert!(approx4(&a.mul(&a.inverse()), &Matrix4::identity()));
    let t = Matrix4::translation(fx(5.0), fx(-3.0), fx(2.0));
    assert!(approx4(&t.mul(&t.inverse()), &Matrix4::identity()));
}

#[test]
fn multiply_by_translation() {
    let t = Matrix4::translation(fx(5.0), fx(-3.0), fx(2.0));
    let p = pt(-3.0, 4.0, 5.0);
    assert!(t.mul_tuple(&p).approx_eq(&pt(2.0, 1.0, 7.0)));
}

#[test]
fn multiply_by_translation_inverse() {
    let t = Matrix4::translation(fx(5.0), fx(-3.0), fx(2.0));
    let p = pt(-3.0, 4.0, 5.0);
    assert!(t.inverse().mul_tuple(&p).approx_eq(&pt(-8.0, 7.0, 3.0)));
}

#[test]
fn translation_does_not_effect_vectors() {
    let t = Matrix4::translation(fx(5.0), fx(-3.0), fx(2.0));
    let v = vc(-3.0, 4.0, 5.0);
    assert!(t.mul_tuple(&v).approx_eq(&v));
}

#[test]
fn scaling_point() {
    let s = Matrix4::scaling(fx(2.0), fx(3.0), fx(4.0));
    let p = pt(-4.0, 6.0, 8.0);
    assert!(s.mul_tuple(&p).approx_eq(&pt(-8.0, 18.0, 32.0)));
}

#[test]
fn scaling_vector() {
    let s = Matrix4::scaling(fx(2.0), fx(3.0), fx(4.0));
    let v = vc(-4.0, 6.0, 8.0);
    assert!(s.mul_tuple(&v).approx_eq(&vc(-8.0, 18.0, 32.0)));
}

#[test]
fn scaling_vector_inverse() {
    let s = Matrix4::scaling(fx(2.0), fx(3.0), fx(4.0));
    let v = vc(-4.0, 6.0, 8.0);
    assert!(s.inverse().mul_tuple(&v).approx_eq(&vc(-2.0, 2.0, 2.0)));
}

#[test]
fn reflecting_point() {
    let s = Matrix4::scaling(fx(-1.0), fx(1.0), fx(1.0));
    let p = pt(1.0, 2.0, 3.0);
    assert!(s.inverse().mul_tuple(&p).approx_eq(&pt(-1.0, 2.0, 3.0)));
}

#[test]
fn rotate_x_point() {
    let p = pt(0.0, 1.0, 0.0);
    let r1 = Matrix4::rotation_x(fx(PI / 4.0));
    let r2 = Matrix4::rotation_x(fx(PI / 2.0));
    assert!(r1.mul_tuple(&p).approx_eq(&pt(0.0, 0.7071068, 0.7071068)));
    assert!(r2.mul_tuple(&p).approx_eq(&pt(0.0, 0.0, 1.0)));
}

#[test]
fn rotate_y_point() {
    let p = pt(0.0, 0.0, 1.0);
    let r1 = Matrix4::rotation_y(fx(PI / 4.0));
    let r2 = Matrix4::rotation_y(fx(PI / 2.0));
    assert!(r1.mul_tuple(&p).approx_eq(&pt(0.7071068, 0.0, 0.7071068)));
    assert!(r2.mul_tuple(&p).approx_eq(&pt(1.0, 0.0, 0.0)));
}

#[test]
fn rotate_z_point() {
    let p = pt(0.0, 1.0, 0.0);
    let r1 = Matrix4::rotation_z(fx(PI / 4.0));
    let r2 = Matrix4::rotation_z(fx(PI / 2.0));
    assert!(r1.mul_tuple(&p).approx_eq(&pt(-0.7071068, 0.7071068, 0.0)));
    assert!(r2.mul_tuple(&p).approx_eq(&pt(-1.0, 0.0, 0.0)));
}

#[test]
fn shearing_xy() {
    let p = pt(2.0, 3.0, 4.0);
    let s = Matrix4::shearing(fx(1.0), fx(0.0), fx(0.0), fx(0.0), fx(0.0), fx(0.0));
    assert!(s.mul_tuple(&p).approx_eq(&pt(5.0, 3.0, 4.0)));
}

#[test]
fn shearing_xz() {
    let p = pt(2.0, 3.0, 4.0);
    let s = Matrix4::shearing(fx(0.0), fx(1.0), fx(0.0), fx(0.0), fx(0.0), fx(0.0));
    assert!(s.mul_tuple(&p).approx_eq(&pt(6.0, 3.0, 4.0)));
}

#[test]
fn shearing_yx() {
    let p = pt(2.0, 3.0, 4.0);
    let s = Matrix4::shearing(fx(0.0), fx(0.0), fx(1.0), fx(0.0), fx(0.0), fx(0.0));
    assert!(s.mul_tuple(&p).approx_eq(&pt(2.0, 5.0, 4.0)));
}

#[test]
fn shearing_yz() {
    let p = pt(2.0, 3.0, 4.0);
    let s = Matrix4::shearing(fx(0.0), fx(0.0), fx(0.0), fx(1.0), fx(0.0), fx(0.0));
    assert!(s.mul_tuple(&p).approx_eq(&pt(2.0, 7.0, 4.0)));
}

#[test]
fn shearing_zx() {
    let p = pt(2.0, 3.0, 4.0);
    let s = Matrix4::shearing(fx(0.0), fx(0.0), fx(0.0), fx(0.0), fx(1.0), fx(0.0));
    assert!(s.mul_tuple(&p).approx_eq(&pt(2.0, 3.0, 6.0)));
}

#[test]
fn shearing_zy() {
    let p = pt(2.0, 3.0, 4.0);
    let s = Matrix4::shearing(fx(0.0), fx(0.0), fx(0.0), fx(0.0), fx(0.0), fx(1.0));
    assert!(s.mul_tuple(&p).approx_eq(&pt(2.0, 3.0, 7.0)));
}

#[test]
fn chain_transformations_individual() {
    let p = pt(1.0, 0.0, 1.0);
    let a = Matrix4::rotation_x(fx(PI / 2.0));
    let b = Matrix4::scaling(fx(5.0), fx(5.0), fx(5.0));
    let c = Matrix4::translation(fx(10.0), fx(5.0), fx(7.0));
    let p2 = a.mul_tuple(&p);
    assert!(p2.approx_eq(&pt(1.0, -1.0, 0.0)));
    let p3 = b.mul_tuple(&p2);
    assert!(p3.approx_eq(&pt(5.0, -5.0, 0.0)));
    let p4 = c.mul_tuple(&p3);
    assert!(p4.approx_eq(&pt(15.0, 0.0, 7.0)));
}

#[test]
fn chain_transformations() {
    let p = pt(1.0, 0.0, 1.0);
    let a = Matrix4::rotation_x(fx(PI / 2.0));
    let b = Matrix4::scaling(fx(5.0), fx(5.0), fx(5.0));
    let c = Matrix4::translation(fx(10.0), fx(5.0), fx(7.0));
    assert!(c.mul(&b).mul(&a).mul_tuple(&p).approx_eq(&pt(15.0, 0.0, 7.0)));
}

#[test]
fn view_transform_default_orientation() {
    let t = Matrix4::view_transform(pt(0.0, 0.0, 0.0), pt(0.0, 0.0, -1.0), vc(0.0, 1.0, 0.0));
    assert!(approx4(&t, &Matrix4::identity()));
}

#[test]
fn view_transform_moves_the_world() {
    let t = Matrix4::view_transform(pt(0.0, 0.0, 8.0), pt(0.0, 0.0, 0.0), vc(0.0, 1.0, 0.0));
    assert!(approx4(&t, &Matrix4::translation(fx(0.0), fx(0.0), fx(-8.0))));
}
