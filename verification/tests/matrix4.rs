use raytracer::fixed::close_strict;
use raytracer::matrix3::Matrix3;
use raytracer::matrix4::Matrix4;
use raytracer::matrix4::Matrix4Error;
use raytracer::tuple::Tuple;
use raytracer::UNIT;

/// The grid scalar of a real value.
fn s(x: f64) -> i64 {
    (x * UNIT as f64).round() as i64
}

/// A 4x4 matrix from real values in row-major order.
fn m4(arr: [f64; 16]) -> Matrix4 {
    let mut grid = [0i64; 16];
    let mut i = 0;
    while i < 16 {
        grid[i] = s(arr[i]);
        i += 1;
    }
    Matrix4::from_array(grid)
}

/// A 3x3 matrix from real values in row-major order.
fn m3(arr: [f64; 9]) -> Matrix3 {
    let mut grid = [0i64; 9];
    let mut i = 0;
    while i < 9 {
        grid[i] = s(arr[i]);
        i += 1;
    }
    Matrix3::from_array(grid)
}

#[test]
fn creation_from_tuples() {
    let t1 = Tuple::new(s(1.0), s(2.0), s(3.0), s(4.0));
    let t2 = Tuple::new(s(5.0), s(6.0), s(7.0), s(8.0));
    let t3 = Tuple::new(s(9.0), s(10.0), s(11.0), s(12.0));
    let t4 = Tuple::new(s(13.0), s(14.0), s(15.0), s(16.0));
    let m = Matrix4::from_tuples(t1, t2, t3, t4);

    assert_eq!(m.m00, s(1.0));
    assert_eq!(m.m02, s(9.0));
    assert_eq!(m.m22, s(11.0));
    assert_eq!(m.m31, s(8.0));
    assert_eq!(m.m33, s(16.0));
}

#[test]
fn creation_from_tuples_by_row() {
    let t1 = Tuple::new(s(1.0), s(2.0), s(3.0), s(4.0));
    let t2 = Tuple::new(s(5.0), s(6.0), s(7.0), s(8.0));
    let t3 = Tuple::new(s(9.0), s(10.0), s(11.0), s(12.0));
    let t4 = Tuple::new(s(13.0), s(14.0), s(15.0), s(16.0));
    let m = Matrix4::from_tuples_by_row(t1, t2, t3, t4);

    assert_eq!(m.m00, s(1.0));
    assert_eq!(m.m02, s(3.0));
    assert_eq!(m.m22, s(11.0));
    assert_eq!(m.m31, s(14.0));
    assert_eq!(m.m33, s(16.0));
}

#[test]
fn matrix4_creation_and_inspection() {
    let m = m4([
        1.0, 2.0, 3.0, 4.0, 5.5, 6.5, 7.5, 8.5, 9.0, 10.0, 11.0, 12.0, 13.5, 14.5, 15.5, 16.5,
    ]);

    assert_eq!(m.get(0, 0), Some(s(1.0)));
    assert_eq!(m.get(0, 3), Some(s(4.0)));
    assert_eq!(m.get(1, 0), Some(s(5.5)));
    assert_eq!(m.get(1, 2), Some(s(7.5)));
    assert_eq!(m.get(2, 2), Some(s(11.0)));
    assert_eq!(m.get(3, 0), Some(s(13.5)));
    assert_eq!(m.get(3, 2), Some(s(15.5)));
}

#[test]
fn matrix4_equality_two_matrices() {
    let a = m4([
        1.0, 2.0, 3.0, 4.0, 5.0, 6.0, 7.0, 8.0, 9.0, 8.0, 7.0, 6.0, 5.0, 4.0, 3.0, 2.0,
    ]);
    let b = m4([
        1.000005, 2.000005, 3.000005, 4.000005, 5.000005, 6.000005, 7.000005, 8.000005, 9.000005,
        8.000005, 7.000005, 6.000005, 5.000005, 4.000005, 3.000005, 2.000005,
    ]);
    let c = m4([
        1.000005, 2.000005, 3.000005, 4.000005, 5.000005, 6.000005, 7.000005, 8.000005, 9.000005,
        8.000005, 7.000005, 6.000005, 5.000005, 4.00005, 3.000005, 2.000005,
    ]);

    assert!(a.approx_eq(&b));
    assert!(!a.approx_eq(&c));
}

#[test]
fn matrix4_multiplication() {
    let matrix_a = m4([
        1.0, 2.0, 3.0, 4.0, 5.0, 6.0, 7.0, 8.0, 9.0, 8.0, 7.0, 6.0, 5.0, 4.0, 3.0, 2.0,
    ]);
    let matrix_b = m4([
        -2.0, 1.0, 2.0, 3.0, 3.0, 2.0, 1.0, -1.0, 4.0, 3.0, 6.0, 5.0, 1.0, 2.0, 7.0, 8.0,
    ]);
    let result = m4([
        20., 22., 50., 48., 44., 54., 114., 108., 40., 58., 110., 102., 16., 26., 46., 42.,
    ]);

    assert!(Matrix4::mult_mat(&matrix_a, &matrix_b).approx_eq(&result));
}

#[test]
fn multiplication_with_tuple() {
    let matrix_a = m4([
        1.0, 2.0, 3.0, 4.0, 2.0, 4.0, 4.0, 2.0, 8.0, 6.0, 4.0, 1.0, 0.0, 0.0, 0.0, 1.0,
    ]);
    let tuple_a = Tuple::new(s(1.0), s(2.0), s(3.0), s(1.0));
    let result = Tuple::new(s(18.), s(24.), s(33.), s(1.0));

    assert!(Matrix4::mult_vec(&matrix_a, &tuple_a).approx_eq(&result));
}

#[test]
fn matrix4_multiplicative_identity() {
    let identity = Matrix4::identity();
    let matrix_a = m4([
        0.0, 1.0, 2.0, 4.0, 1.0, 2.0, 4.0, 8.0, 2.0, 4.0, 8.0, 16.0, 4.0, 8.0, 16.0, 32.0,
    ]);
    let tuple_a = Tuple::new(s(1.0), s(2.0), s(3.0), s(4.0));

    assert!(Matrix4::mult_mat(&matrix_a, &identity).approx_eq(&matrix_a));
    assert!(Matrix4::mult_vec(&identity, &tuple_a).approx_eq(&tuple_a));
}

#[test]
fn matrix4_transpose() {
    let matrix_a = m4([
        0.0, 9.0, 3.0, 0.0, 9.0, 8.0, 0.0, 8.0, 1.0, 8.0, 5.0, 3.0, 0.0, 0.0, 5.0, 8.0,
    ]);
    let result = m4([
        0.0, 9.0, 1.0, 0.0, 9.0, 8.0, 8.0, 0.0, 3.0, 0.0, 5.0, 5.0, 0.0, 8.0, 3.0, 8.0,
    ]);

    assert!(matrix_a.transpose().approx_eq(&result));
}

#[test]
fn matrix4_submatrix() {
    let matrix_a = m4([
        -6.0, 1.0, 1.0, 6.0, -8.0, 5.0, 8.0, 6.0, -1.0, 0.0, 8.0, 2.0, -7.0, 1.0, -1.0, 1.0,
    ]);
    let result = m3([-6.0, 1.0, 6.0, -8.0, 8.0, 6.0, -7.0, -1.0, 1.0]);
    assert!(matrix_a.submatrix(2, 1).approx_eq(&result));
}

#[test]
fn matrix4_determinant() {
    let matrix_a = m4([
        -2., -8., 3., 5., -3., 1., 7., 3., 1., 2., -9., 6., -6., 7., 7., -9.,
    ]);
    assert!(close_strict(matrix_a.cofactor(0, 0), s(690.)));
    assert!(close_strict(matrix_a.cofactor(0, 1), s(447.)));
    assert!(close_strict(matrix_a.cofactor(0, 2), s(210.)));
    assert!(close_strict(matrix_a.cofactor(0, 3), s(51.)));
    assert!(close_strict(matrix_a.det(), s(-4071.)));
}

#[test]
fn invertible() {
    let matrix_a = m4([
        6.0, 4.0, 4.0, 4.0, 5.0, 5.0, 7.0, 6.0, 4.0, -9.0, 3.0, -7.0, 9.0, 1.0, 7.0, -6.0,
    ]);
    assert!(matrix_a.invertible());

    let matrix_a = m4([
        -4.0, 2.0, -2.0, -3.0, 9.0, 6.0, 2.0, 6.0, 0.0, -5.0, 1.0, -5.0, 0., 0., 0., 0.,
    ]);
    assert!(!matrix_a.invertible());
}

#[test]
fn inverse() {
    let matrix_a = m4([
        -5.0, 2.0, 6.0, -8.0, 1.0, -5.0, 1.0, 8.0, 7.0, 7.0, -6.0, -7.0, 1.0, -3.0, 7.0, 4.0,
    ]);
    let matrix_b = matrix_a.inverse().unwrap();
    let det_a = matrix_a.det();

    assert!(Matrix4::mult_mat(&matrix_a, &matrix_b).approx_eq(&Matrix4::identity()));
    assert!(close_strict(det_a, s(532.0)));
    assert!(close_strict(matrix_a.cofactor(2, 3), s(-160.0)));
    assert_eq!(
        matrix_b.get(3, 2),
        Some(raytracer::fixed::fixed_div(s(-160.0), det_a))
    );
    assert!(close_strict(matrix_a.cofactor(3, 2), s(105.0)));
    assert_eq!(
        matrix_b.get(2, 3),
        Some(raytracer::fixed::fixed_div(s(105.0), det_a))
    );

    let result = m4([
        0.21805, 0.45113, 0.24060, -0.04511, -0.80827, -1.45677, -0.44361, 0.52068, -0.07895,
        -0.22368, -0.05263, 0.19737, -0.52256, -0.81391, -0.30075, 0.30639,
    ]);
    assert!(matrix_b.approx_eq(&result));
}

#[test]
// A 4x4 matrix times its inverse compares equal to the identity.
fn matrix4_inverse_roundtrip() {
    let matrix_a = m4([
        6.0, 4.0, 4.0, 4.0, 5.0, 5.0, 7.0, 6.0, 4.0, -9.0, 3.0, -7.0, 9.0, 1.0, 7.0, -6.0,
    ]);
    let inverse = matrix_a.inverse().unwrap();
    assert!(Matrix4::mult_mat(&matrix_a, &inverse).approx_eq(&Matrix4::identity()));
}

#[test]
// Out-of-range reads give None; out-of-range writes report OutOfBounds.
fn matrix4_out_of_bounds() {
    let mut m = Matrix4::zero();
    assert_eq!(m.get(4, 0), None);
    assert_eq!(m.get(0, 4), None);
    assert!(matches!(m.set(4, 0, s(9.0)), Err(Matrix4Error::OutOfBounds)));
    assert!(matches!(m.set(3, 3, s(9.0)), Ok(())));
    assert_eq!(m.get(3, 3), Some(s(9.0)));
}

#[test]
// (M * N) transposed equals N transposed times M transposed.
fn matrix4_transpose_of_product() {
    let a = m4([
        1.0, 2.0, 3.0, 4.0, 5.0, 6.0, 7.0, 8.0, 9.0, 8.0, 7.0, 6.0, 5.0, 4.0, 3.0, 2.0,
    ]);
    let b = m4([
        -2.0, 1.0, 2.0, 3.0, 3.0, 2.0, 1.0, -1.0, 4.0, 3.0, 6.0, 5.0, 1.0, 2.0, 7.0, 8.0,
    ]);
    let lhs = Matrix4::mult_mat(&a, &b).transpose();
    let rhs = Matrix4::mult_mat(&b.transpose(), &a.transpose());
    assert_eq!(lhs, rhs);
}
