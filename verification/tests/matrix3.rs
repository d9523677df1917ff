use raytracer::fixed::close_strict;
use raytracer::matrix2::Matrix2;
use raytracer::matrix3::Matrix3;
use raytracer::matrix3::Matrix3Error;
use raytracer::UNIT;

/// The grid scalar of a real value.
fn s(x: f64) -> i64 {
    (x * UNIT as f64).round() as i64
}

/// A 3x3 matrix from real values in row-major order.
fn m3(arr: [f64; 9]) -> Matrix3 {
    let mut grid = [0i64; 9];
    let mut i = 0;
    while i < 9 {
        grid[i] = s(arr[i]);
        i += 1;
    }
    Matrix3::from_array(grid)
}

/// A 2x2 matrix from real values in row-major order.
fn m2(arr: [f64; 4]) -> Matrix2 {
    Matrix2::from_array([s(arr[0]), s(arr[1]), s(arr[2]), s(arr[3])])
}

#[test]
fn matrix3_creation_and_inspection() {
    let m = m3([-3.0, 5.0, 0.0, 1.0, -2.0, -7.0, 0.0, 1.0, 1.0]);

    assert_eq!(m.get(0, 0), Some(s(-3.0)));
    assert_eq!(m.get(1, 0), Some(s(1.0)));
    assert_eq!(m.get(1, 2), Some(s(-7.0)));
    assert_eq!(m.get(2, 2), Some(s(1.0)));
}

#[test]
fn matrix3_equality_two_matrices() {
    let a = m3([1.0, 2.0, 3.0, 4.0, 5.0, 6.0, 7.0, 8.0, 9.0]);
    let b = m3([
        1.000005, 2.000005, 3.000005, 4.000005, 5.000005, 6.000005, 7.000005, 8.000005, 9.000005,
    ]);
    let c = m3([
        1.000005, 2.000005, 3.000005, 4.000005, 5.000005, 6.000005, 7.000005, 8.000005, 9.00005,
    ]);

    assert!(a.approx_eq(&b));
    assert!(!a.approx_eq(&c));
}

#[test]
fn matrix3_multiplication() {
    let matrix_a = m3([5.0, 3.0, 7.0, -3.0, -4.0, -5.0, -6.0, -8.0, 9.0]);
    let matrix_b = m3([4.0, 4.0, -5.0, -7.0, 1.0, 9.0, 9.0, 1.0, -4.0]);
    let result = m3([62., 30., -26., -29., -21., -1., 113., -23., -78.]);

    assert!(Matrix3::mult_mat(&matrix_a, &matrix_b).approx_eq(&result));
}

#[test]
fn matrix3_multiplicative_identity() {
    let identity = Matrix3::identity();
    let matrix_a = m3([4.0, 4.0, -5.0, -7.0, 1.0, 9.0, 9.0, 1.0, -4.0]);
    assert!(Matrix3::mult_mat(&identity, &matrix_a).approx_eq(&matrix_a));
}

#[test]
fn matrix3_transpose() {
    let matrix_a = m3([4.0, 4.0, -5.0, -7.0, 1.0, 9.0, 9.0, 1.0, -4.0]);
    let result = m3([4.0, -7.0, 9.0, 4.0, 1.0, 1.0, -5.0, 9.0, -4.0]);
    assert!(matrix_a.transpose().approx_eq(&result));
}

#[test]
fn matrix3_submatrix() {
    let matrix_a = m3([1.0, 5.0, 0.0, -3.0, 2.0, 7.0, 0.0, 6.0, -3.0]);
    let result = m2([-3.0, 2.0, 0.0, 6.0]);
    assert!(matrix_a.submatrix(0, 2).approx_eq(&result));
}

#[test]
fn minor() {
    let matrix_a = m3([3.0, 5.0, 0.0, 2.0, -1.0, -7.0, 6.0, -1.0, 5.0]);
    let submatrix_b = matrix_a.submatrix(1, 0);
    assert!(close_strict(submatrix_b.det(), s(25.0)));
    assert!(close_strict(matrix_a.minor(1, 0), s(25.0)));
}

#[test]
fn cofactor() {
    let matrix_a = m3([3.0, 5.0, 0.0, 2.0, -1.0, -7.0, 6.0, -1.0, 5.0]);
    assert!(close_strict(matrix_a.minor(0, 0), s(-12.0)));
    assert!(close_strict(matrix_a.cofactor(0, 0), s(-12.0)));
    assert!(close_strict(matrix_a.minor(1, 0), s(25.0)));
    assert!(close_strict(matrix_a.cofactor(1, 0), s(-25.0)));
}

#[test]
fn matrix3_determinant() {
    let matrix_a = m3([1.0, 2.0, 6.0, -5.0, 8.0, -4.0, 2.0, 6.0, 4.0]);
    assert!(close_strict(matrix_a.cofactor(0, 0), s(56.)));
    assert!(close_strict(matrix_a.cofactor(0, 1), s(12.)));
    assert!(close_strict(matrix_a.cofactor(0, 2), s(-46.)));
    assert!(close_strict(matrix_a.det(), s(-196.)));
}

#[test]
// A 3x3 matrix times its inverse compares equal to the identity.
fn matrix3_inverse_roundtrip() {
    let matrix_a = m3([1.0, 2.0, 6.0, -5.0, 8.0, -4.0, 2.0, 6.0, 4.0]);
    assert!(matrix_a.invertible());
    let inverse = matrix_a.inverse().unwrap();
    assert!(Matrix3::mult_mat(&matrix_a, &inverse).approx_eq(&Matrix3::identity()));
}

#[test]
// Out-of-range reads give None; out-of-range writes report OutOfBounds.
fn matrix3_out_of_bounds() {
    let mut m = m3([1.0, 2.0, 3.0, 4.0, 5.0, 6.0, 7.0, 8.0, 9.0]);
    assert_eq!(m.get(3, 0), None);
    assert_eq!(m.get(0, 3), None);
    assert!(matches!(m.set(3, 0, s(9.0)), Err(Matrix3Error::OutOfBounds)));
    assert!(matches!(m.set(2, 1, s(9.0)), Ok(())));
    assert_eq!(m.get(2, 1), Some(s(9.0)));
}

#[test]
// (M * N) transposed equals N transposed times M transposed.
fn matrix3_transpose_of_product() {
    let a = m3([5.0, 3.0, 7.0, -3.0, -4.0, -5.0, -6.0, -8.0, 9.0]);
    let b = m3([4.0, 4.0, -5.0, -7.0, 1.0, 9.0, 9.0, 1.0, -4.0]);
    let lhs = Matrix3::mult_mat(&a, &b).transpose();
    let rhs = Matrix3::mult_mat(&b.transpose(), &a.transpose());
    assert_eq!(lhs, rhs);
}
