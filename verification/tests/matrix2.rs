use raytracer::fixed::close_strict;
use raytracer::matrix2::Matrix2;
use raytracer::matrix2::Matrix2Error;
use raytracer::UNIT;

/// The grid scalar of a real value.
fn s(x: f64) -> i64 {
    (x * UNIT as f64).round() as i64
}

/// A 2x2 matrix from real values in row-major order.
fn m2(arr: [f64; 4]) -> Matrix2 {
    Matrix2::from_array([s(arr[0]), s(arr[1]), s(arr[2]), s(arr[3])])
}

#[test]
fn matrix2_creation_and_inspection() {
    let m = m2([-3.0, 5.0, 1.0, -2.0]);

    assert_eq!(m.get(0, 0), Some(s(-3.0)));
    assert_eq!(m.get(0, 1), Some(s(5.0)));
    assert_eq!(m.get(1, 0), Some(s(1.0)));
    assert_eq!(m.get(1, 1), Some(s(-2.0)));
}

#[test]
fn matrix2_equality_two_matrices() {
    let a = m2([1.0, 2.0, 3.0, 4.0]);
    let b = m2([1.000005, 2.000005, 3.000005, 4.000005]);
    let c = m2([1.000005, 2.000005, 3.000005, 4.00005]);

    assert!(a.approx_eq(&b));
    assert!(!a.approx_eq(&c));
}

#[test]
fn matrix2_multiplication() {
    let matrix_a = m2([1.0, 2.0, 3.0, 4.0]);
    let matrix_b = m2([-2.0, 1.0, 2.0, 3.0]);
    let result = m2([2.0, 7.0, 2.0, 15.0]);

    assert!(Matrix2::mult_mat(&matrix_a, &matrix_b).approx_eq(&result));
}

#[test]
fn matrix2_multiplicative_identity() {
    let identity = Matrix2::identity();
    let matrix_a = m2([1.0, 3.0, 8.0, 2.0]);
    assert!(Matrix2::mult_mat(&identity, &matrix_a).approx_eq(&matrix_a));
}

#[test]
fn matrix2_transpose() {
    let matrix_a = m2([1.0, 5.0, -3.0, 2.0]);
    let result = m2([1.0, -3.0, 5.0, 2.0]);
    assert!(matrix_a.transpose().approx_eq(&result));
}

#[test]
fn matrix2_determinant() {
    let matrix_a = m2([1.0, 5.0, -3.0, 2.0]);
    assert!(close_strict(matrix_a.det(), s(17.0)));
}

#[test]
// A 2x2 matrix times its inverse compares equal to the identity.
fn matrix2_inverse_roundtrip() {
    let matrix_a = m2([1.0, 5.0, -3.0, 2.0]);
    assert!(matrix_a.invertible());
    let inverse = matrix_a.inverse().unwrap();
    assert!(Matrix2::mult_mat(&matrix_a, &inverse).approx_eq(&Matrix2::identity()));
}

#[test]
// A singular 2x2 matrix has no inverse.
fn matrix2_singular_has_no_inverse() {
    let matrix_a = m2([2.0, 4.0, 1.0, 2.0]);
    assert!(!matrix_a.invertible());
    assert!(matrix_a.inverse().is_none());
}

#[test]
// Out-of-range reads give None; out-of-range writes report OutOfBounds
// and leave the matrix unchanged.
fn matrix2_out_of_bounds() {
    let mut m = m2([1.0, 2.0, 3.0, 4.0]);
    assert_eq!(m.get(2, 0), None);
    assert_eq!(m.get(0, 2), None);
    assert!(matches!(m.set(2, 0, s(9.0)), Err(Matrix2Error::OutOfBounds)));
    assert!(matches!(m.set(0, 1, s(9.0)), Ok(())));
    assert_eq!(m.get(0, 1), Some(s(9.0)));
}

#[test]
// (M * N) transposed equals N transposed times M transposed.
fn matrix2_transpose_of_product() {
    let a = m2([1.0, 2.5, -3.0, 4.0]);
    let b = m2([-2.0, 1.5, 2.0, 3.0]);
    let lhs = Matrix2::mult_mat(&a, &b).transpose();
    let rhs = Matrix2::mult_mat(&b.transpose(), &a.transpose());
    assert_eq!(lhs, rhs);
}
