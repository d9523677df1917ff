//! 3x3 matrices: determinant by cofactor expansion along the first row,
//! with 2x2 submatrices.  Storage is row-major; `mRC` is the entry at row
//! R, column C.

use vstd::prelude::*;

verus! {

use crate::fixed::fdiv;
use crate::fixed::fixed_div;
use crate::fixed::fixed_mul;
use crate::fixed::fmul;
use crate::fixed::in_i64;
use crate::fixed::close_strict;
use crate::fixed::close_strict_spec;
use crate::matrix2::Matrix2;

/// A 3x3 matrix of grid-step scalars, row-major.
#[derive(Clone, Copy, Debug, PartialEq, Eq, Structural)]
pub struct Matrix3 {
    pub m00: i64,
    pub m01: i64,
    pub m02: i64,
    pub m10: i64,
    pub m11: i64,
    pub m12: i64,
    pub m20: i64,
    pub m21: i64,
    pub m22: i64,
}

/// Failure of a bounds-checked matrix update.
#[derive(Clone, Copy, Debug, PartialEq, Eq, Structural)]
pub enum Matrix3Error {
    OutOfBounds,
}

impl Matrix3 {
    /// The entry at row `r`, column `c` (both in 0..3).
    pub open spec fn entry(self, r: int, c: int) -> int {
        if r == 0 && c == 0 {
            self.m00 as int
        } else if r == 0 && c == 1 {
            self.m01 as int
        } else if r == 0 && c == 2 {
            self.m02 as int
        } else if r == 1 && c == 0 {
            self.m10 as int
        } else if r == 1 && c == 1 {
            self.m11 as int
        } else if r == 1 && c == 2 {
            self.m12 as int
        } else if r == 2 && c == 0 {
            self.m20 as int
        } else if r == 2 && c == 1 {
            self.m21 as int
        } else {
            self.m22 as int
        }
    }

    /// The matrix with the entry at `(r, c)` replaced by `val`.
    pub open spec fn set_spec(self, r: int, c: int, val: i64) -> Matrix3 {
        if r == 0 && c == 0 {
            Matrix3 { m00: val, ..self }
        } else if r == 0 && c == 1 {
            Matrix3 { m01: val, ..self }
        } else if r == 0 && c == 2 {
            Matrix3 { m02: val, ..self }
        } else if r == 1 && c == 0 {
            Matrix3 { m10: val, ..self }
        } else if r == 1 && c == 1 {
            Matrix3 { m11: val, ..self }
        } else if r == 1 && c == 2 {
            Matrix3 { m12: val, ..self }
        } else if r == 2 && c == 0 {
            Matrix3 { m20: val, ..self }
        } else if r == 2 && c == 1 {
            Matrix3 { m21: val, ..self }
        } else {
            Matrix3 { m22: val, ..self }
        }
    }

    /// The matrix with rows and columns swapped.
    pub open spec fn transpose_spec(self) -> Matrix3 {
        Matrix3 {
            m00: self.m00,
            m01: self.m10,
            m02: self.m20,
            m10: self.m01,
            m11: self.m11,
            m12: self.m21,
            m20: self.m02,
            m21: self.m12,
            m22: self.m22,
        }
    }

    /// The 2x2 matrix left after deleting row `r` and column `c`.
    pub open spec fn submatrix_spec(self, r: int, c: int) -> Matrix2 {
        if r == 0 && c == 0 {
            Matrix2 { m00: self.m11, m01: self.m12, m10: self.m21, m11: self.m22 }
        } else if r == 0 && c == 1 {
            Matrix2 { m00: self.m10, m01: self.m12, m10: self.m20, m11: self.m22 }
        } else if r == 0 && c == 2 {
            Matrix2 { m00: self.m10, m01: self.m11, m10: self.m20, m11: self.m21 }
        } else if r == 1 && c == 0 {
            Matrix2 { m00: self.m01, m01: self.m02, m10: self.m21, m11: self.m22 }
        } else if r == 1 && c == 1 {
            Matrix2 { m00: self.m00, m01: self.m02, m10: self.m20, m11: self.m22 }
        } else if r == 1 && c == 2 {
            Matrix2 { m00: self.m00, m01: self.m01, m10: self.m20, m11: self.m21 }
        } else if r == 2 && c == 0 {
            Matrix2 { m00: self.m01, m01: self.m02, m10: self.m11, m11: self.m12 }
        } else if r == 2 && c == 1 {
            Matrix2 { m00: self.m00, m01: self.m02, m10: self.m10, m11: self.m12 }
        } else {
            Matrix2 { m00: self.m00, m01: self.m01, m10: self.m10, m11: self.m11 }
        }
    }

    /// The minor at `(r, c)`: the determinant of the submatrix.
    pub open spec fn minor_spec(self, r: int, c: int) -> int {
        self.submatrix_spec(r, c).det_spec()
    }

    /// The cofactor at `(r, c)`: the minor, negated when `r + c` is odd.
    pub open spec fn cofactor_spec(self, r: int, c: int) -> int {
        if (r + c) % 2 == 0 {
            self.minor_spec(r, c)
        } else {
            -self.minor_spec(r, c)
        }
    }

    /// The cofactor at `(r, c)` and its negation stay in the scalar range.
    pub open spec fn cofactor_fits(self, r: int, c: int) -> bool {
        &&& self.submatrix_spec(r, c).det_fits()
        &&& in_i64(-self.minor_spec(r, c))
    }

    /// The rounded determinant: cofactor expansion along the first row.
    pub open spec fn det_spec(self) -> int {
        fmul(self.m00 as int, self.cofactor_spec(0, 0)) + fmul(
            self.m01 as int,
            self.cofactor_spec(0, 1),
        ) + fmul(self.m02 as int, self.cofactor_spec(0, 2))
    }

    /// Every intermediate value of the determinant stays in the scalar
    /// range.
    pub open spec fn det_fits(self) -> bool {
        &&& self.cofactor_fits(0, 0)
        &&& self.cofactor_fits(0, 1)
        &&& self.cofactor_fits(0, 2)
        &&& in_i64(fmul(self.m00 as int, self.cofactor_spec(0, 0)))
        &&& in_i64(fmul(self.m01 as int, self.cofactor_spec(0, 1)))
        &&& in_i64(fmul(self.m02 as int, self.cofactor_spec(0, 2)))
        &&& in_i64(self.det_spec())
    }

    /// The magnitude of the determinant exceeds the comparison epsilon.
    pub open spec fn invertible_spec(self) -> bool {
        self.det_spec() > crate::EPSILON_STEPS || self.det_spec() < -(crate::EPSILON_STEPS as int)
    }

    /// Entry `(i, j)` of the rounded matrix product `a * b`.
    pub open spec fn mul_entry(a: Matrix3, b: Matrix3, i: int, j: int) -> int {
        fmul(a.entry(i, 0), b.entry(0, j)) + fmul(a.entry(i, 1), b.entry(1, j)) + fmul(
            a.entry(i, 2),
            b.entry(2, j),
        )
    }

    /// The rounded matrix product.
    pub open spec fn mul_spec(a: Matrix3, b: Matrix3) -> Matrix3 {
        Matrix3 {
            m00: Matrix3::mul_entry(a, b, 0, 0) as i64,
            m01: Matrix3::mul_entry(a, b, 0, 1) as i64,
            m02: Matrix3::mul_entry(a, b, 0, 2) as i64,
            m10: Matrix3::mul_entry(a, b, 1, 0) as i64,
            m11: Matrix3::mul_entry(a, b, 1, 1) as i64,
            m12: Matrix3::mul_entry(a, b, 1, 2) as i64,
            m20: Matrix3::mul_entry(a, b, 2, 0) as i64,
            m21: Matrix3::mul_entry(a, b, 2, 1) as i64,
            m22: Matrix3::mul_entry(a, b, 2, 2) as i64,
        }
    }

    /// Every rounded product feeding entry `(i, j)` of `a * b`, and the
    /// entry itself, stays in the scalar range.
    pub open spec fn mul_entry_fits(a: Matrix3, b: Matrix3, i: int, j: int) -> bool {
        &&& in_i64(fmul(a.entry(i, 0), b.entry(0, j)))
        &&& in_i64(fmul(a.entry(i, 1), b.entry(1, j)))
        &&& in_i64(fmul(a.entry(i, 2), b.entry(2, j)))
        &&& in_i64(Matrix3::mul_entry(a, b, i, j))
    }

    /// Every entry of `a * b` stays in the scalar range.
    pub open spec fn mul_fits(a: Matrix3, b: Matrix3) -> bool {
        &&& Matrix3::mul_entry_fits(a, b, 0, 0)
        &&& Matrix3::mul_entry_fits(a, b, 0, 1)
        &&& Matrix3::mul_entry_fits(a, b, 0, 2)
        &&& Matrix3::mul_entry_fits(a, b, 1, 0)
        &&& Matrix3::mul_entry_fits(a, b, 1, 1)
        &&& Matrix3::mul_entry_fits(a, b, 1, 2)
        &&& Matrix3::mul_entry_fits(a, b, 2, 0)
        &&& Matrix3::mul_entry_fits(a, b, 2, 1)
        &&& Matrix3::mul_entry_fits(a, b, 2, 2)
    }

    /// Every cofactor of the matrix, and every entry of the inverse, stays
    /// in the scalar range.
    pub open spec fn inverse_fits(self) -> bool {
        &&& self.det_fits()
        &&& self.invertible_spec() ==> {
            &&& self.cofactor_fits(0, 0)
            &&& self.cofactor_fits(0, 1)
            &&& self.cofactor_fits(0, 2)
            &&& self.cofactor_fits(1, 0)
            &&& self.cofactor_fits(1, 1)
            &&& self.cofactor_fits(1, 2)
            &&& self.cofactor_fits(2, 0)
            &&& self.cofactor_fits(2, 1)
            &&& self.cofactor_fits(2, 2)
            &&& in_i64(fdiv(self.cofactor_spec(0, 0), self.det_spec()))
            &&& in_i64(fdiv(self.cofactor_spec(0, 1), self.det_spec()))
            &&& in_i64(fdiv(self.cofactor_spec(0, 2), self.det_spec()))
            &&& in_i64(fdiv(self.cofactor_spec(1, 0), self.det_spec()))
            &&& in_i64(fdiv(self.cofactor_spec(1, 1), self.det_spec()))
            &&& in_i64(fdiv(self.cofactor_spec(1, 2), self.det_spec()))
            &&& in_i64(fdiv(self.cofactor_spec(2, 0), self.det_spec()))
            &&& in_i64(fdiv(self.cofactor_spec(2, 1), self.det_spec()))
            &&& in_i64(fdiv(self.cofactor_spec(2, 2), self.det_spec()))
        }
    }

    /// The inverse as a value: the transposed cofactor matrix divided by
    /// the determinant.  Meaningful when the matrix is invertible.
    pub open spec fn inverse_spec(self) -> Matrix3 {
        Matrix3 {
            m00: fdiv(self.cofactor_spec(0, 0), self.det_spec()) as i64,
            m01: fdiv(self.cofactor_spec(1, 0), self.det_spec()) as i64,
            m02: fdiv(self.cofactor_spec(2, 0), self.det_spec()) as i64,
            m10: fdiv(self.cofactor_spec(0, 1), self.det_spec()) as i64,
            m11: fdiv(self.cofactor_spec(1, 1), self.det_spec()) as i64,
            m12: fdiv(self.cofactor_spec(2, 1), self.det_spec()) as i64,
            m20: fdiv(self.cofactor_spec(0, 2), self.det_spec()) as i64,
            m21: fdiv(self.cofactor_spec(1, 2), self.det_spec()) as i64,
            m22: fdiv(self.cofactor_spec(2, 2), self.det_spec()) as i64,
        }
    }

    /// The all-zero matrix.
    pub fn zero() -> (r: Matrix3)
        ensures
            r == Matrix3::zero_spec(),
    {
        Matrix3 { m00: 0, m01: 0, m02: 0, m10: 0, m11: 0, m12: 0, m20: 0, m21: 0, m22: 0 }
    }

    /// The all-zero matrix as a value.
    pub open spec fn zero_spec() -> Matrix3 {
        Matrix3 {
            m00: 0i64,
            m01: 0i64,
            m02: 0i64,
            m10: 0i64,
            m11: 0i64,
            m12: 0i64,
            m20: 0i64,
            m21: 0i64,
            m22: 0i64,
        }
    }

    /// The all-zero matrix.
    pub fn new() -> (r: Matrix3)
        ensures
            r == Matrix3::zero_spec(),
    {
        Matrix3::zero()
    }

    /// Builds the matrix from nine entries in row-major order.
    pub fn from_array(arr: [i64; 9]) -> (r: Matrix3)
        ensures
            r == (Matrix3 {
                m00: arr[0],
                m01: arr[1],
                m02: arr[2],
                m10: arr[3],
                m11: arr[4],
                m12: arr[5],
                m20: arr[6],
                m21: arr[7],
                m22: arr[8],
            }),
    {
        Matrix3 {
            m00: arr[0],
            m01: arr[1],
            m02: arr[2],
            m10: arr[3],
            m11: arr[4],
            m12: arr[5],
            m20: arr[6],
            m21: arr[7],
            m22: arr[8],
        }
    }

    /// Builds the matrix from nine entries in column-major order.
    pub fn from_array_by_col(arr: [i64; 9]) -> (r: Matrix3)
        ensures
            r == (Matrix3 {
                m00: arr[0],
                m01: arr[3],
                m02: arr[6],
                m10: arr[1],
                m11: arr[4],
                m12: arr[7],
                m20: arr[2],
                m21: arr[5],
                m22: arr[8],
            }),
    {
        Matrix3 {
            m00: arr[0],
            m01: arr[3],
            m02: arr[6],
            m10: arr[1],
            m11: arr[4],
            m12: arr[7],
            m20: arr[2],
            m21: arr[5],
            m22: arr[8],
        }
    }

    /// The entry at `(row, col)`, or `None` when either index is out of
    /// range.
    pub fn get(&self, row: usize, col: usize) -> (r: Option<i64>)
        ensures
            r == if row < 3 && col < 3 {
                Some(self.entry(row as int, col as int) as i64)
            } else {
                Option::<i64>::None
            },
    {
        if row >= 3 || col >= 3 {
            return None;
        }
        let idx: usize = row * 3 + col;
        if idx == 0 {
            Some(self.m00)
        } else if idx == 1 {
            Some(self.m01)
        } else if idx == 2 {
            Some(self.m02)
        } else if idx == 3 {
            Some(self.m10)
        } else if idx == 4 {
            Some(self.m11)
        } else if idx == 5 {
            Some(self.m12)
        } else if idx == 6 {
            Some(self.m20)
        } else if idx == 7 {
            Some(self.m21)
        } else {
            Some(self.m22)
        }
    }

    /// Overwrites the entry at `(row, col)`, or reports `OutOfBounds` and
    /// leaves the matrix unchanged when either index is out of range.
    pub fn set(&mut self, row: usize, col: usize, val: i64) -> (r: Result<(), Matrix3Error>)
        ensures
            r is Ok <==> row < 3 && col < 3,
            row < 3 && col < 3 ==> *final(self) == old(self).set_spec(
                row as int,
                col as int,
                val,
            ),
            !(row < 3 && col < 3) ==> *final(self) == *old(self),
    {
        if row >= 3 || col >= 3 {
            return Err(Matrix3Error::OutOfBounds);
        }
        let idx: usize = row * 3 + col;
        if idx == 0 {
            self.m00 = val;
        } else if idx == 1 {
            self.m01 = val;
        } else if idx == 2 {
            self.m02 = val;
        } else if idx == 3 {
            self.m10 = val;
        } else if idx == 4 {
            self.m11 = val;
        } else if idx == 5 {
            self.m12 = val;
        } else if idx == 6 {
            self.m20 = val;
        } else if idx == 7 {
            self.m21 = val;
        } else {
            self.m22 = val;
        }
        Ok(())
    }

    /// The multiplicative identity: 1.0 on the diagonal.
    pub fn identity() -> (r: Matrix3)
        ensures
            r == Matrix3::identity_spec(),
    {
        Matrix3 {
            m00: crate::UNIT,
            m01: 0,
            m02: 0,
            m10: 0,
            m11: crate::UNIT,
            m12: 0,
            m20: 0,
            m21: 0,
            m22: crate::UNIT,
        }
    }

    /// The multiplicative identity as a value.
    pub open spec fn identity_spec() -> Matrix3 {
        Matrix3 {
            m00: crate::UNIT,
            m01: 0i64,
            m02: 0i64,
            m10: 0i64,
            m11: crate::UNIT,
            m12: 0i64,
            m20: 0i64,
            m21: 0i64,
            m22: crate::UNIT,
        }
    }

    /// Entry-wise sum of two matrices.
    pub fn add(matrix_a: &Matrix3, matrix_b: &Matrix3) -> (r: Matrix3)
        requires
            in_i64(matrix_a.m00 + matrix_b.m00),
            in_i64(matrix_a.m01 + matrix_b.m01),
            in_i64(matrix_a.m02 + matrix_b.m02),
            in_i64(matrix_a.m10 + matrix_b.m10),
            in_i64(matrix_a.m11 + matrix_b.m11),
            in_i64(matrix_a.m12 + matrix_b.m12),
            in_i64(matrix_a.m20 + matrix_b.m20),
            in_i64(matrix_a.m21 + matrix_b.m21),
            in_i64(matrix_a.m22 + matrix_b.m22),
        ensures
            r.m00 == matrix_a.m00 + matrix_b.m00,
            r.m01 == matrix_a.m01 + matrix_b.m01,
            r.m02 == matrix_a.m02 + matrix_b.m02,
            r.m10 == matrix_a.m10 + matrix_b.m10,
            r.m11 == matrix_a.m11 + matrix_b.m11,
            r.m12 == matrix_a.m12 + matrix_b.m12,
            r.m20 == matrix_a.m20 + matrix_b.m20,
            r.m21 == matrix_a.m21 + matrix_b.m21,
            r.m22 == matrix_a.m22 + matrix_b.m22,
    {
        Matrix3 {
            m00: matrix_a.m00 + matrix_b.m00,
            m01: matrix_a.m01 + matrix_b.m01,
            m02: matrix_a.m02 + matrix_b.m02,
            m10: matrix_a.m10 + matrix_b.m10,
            m11: matrix_a.m11 + matrix_b.m11,
            m12: matrix_a.m12 + matrix_b.m12,
            m20: matrix_a.m20 + matrix_b.m20,
            m21: matrix_a.m21 + matrix_b.m21,
            m22: matrix_a.m22 + matrix_b.m22,
        }
    }

    /// Entry-wise difference of two matrices.
    pub fn sub(matrix_a: &Matrix3, matrix_b: &Matrix3) -> (r: Matrix3)
        requires
            in_i64(matrix_a.m00 - matrix_b.m00),
            in_i64(matrix_a.m01 - matrix_b.m01),
            in_i64(matrix_a.m02 - matrix_b.m02),
            in_i64(matrix_a.m10 - matrix_b.m10),
            in_i64(matrix_a.m11 - matrix_b.m11),
            in_i64(matrix_a.m12 - matrix_b.m12),
            in_i64(matrix_a.m20 - matrix_b.m20),
            in_i64(matrix_a.m21 - matrix_b.m21),
            in_i64(matrix_a.m22 - matrix_b.m22),
        ensures
            r.m00 == matrix_a.m00 - matrix_b.m00,
            r.m01 == matrix_a.m01 - matrix_b.m01,
            r.m02 == matrix_a.m02 - matrix_b.m02,
            r.m10 == matrix_a.m10 - matrix_b.m10,
            r.m11 == matrix_a.m11 - matrix_b.m11,
            r.m12 == matrix_a.m12 - matrix_b.m12,
            r.m20 == matrix_a.m20 - matrix_b.m20,
            r.m21 == matrix_a.m21 - matrix_b.m21,
            r.m22 == matrix_a.m22 - matrix_b.m22,
    {
        Matrix3 {
            m00: matrix_a.m00 - matrix_b.m00,
            m01: matrix_a.m01 - matrix_b.m01,
            m02: matrix_a.m02 - matrix_b.m02,
            m10: matrix_a.m10 - matrix_b.m10,
            m11: matrix_a.m11 - matrix_b.m11,
            m12: matrix_a.m12 - matrix_b.m12,
            m20: matrix_a.m20 - matrix_b.m20,
            m21: matrix_a.m21 - matrix_b.m21,
            m22: matrix_a.m22 - matrix_b.m22,
        }
    }

    /// Matrix product: each entry is the rounded dot product of a row of
    /// `matrix_a` with a column of `matrix_b`.
    pub fn mult_mat(matrix_a: &Matrix3, matrix_b: &Matrix3) -> (r: Matrix3)
        requires
            Matrix3::mul_fits(*matrix_a, *matrix_b),
        ensures
            r == Matrix3::mul_spec(*matrix_a, *matrix_b),
    {
        let a = matrix_a;
        let b = matrix_b;
        let e00: i128 = fixed_mul(a.m00, b.m00) as i128 + fixed_mul(a.m01, b.m10) as i128
            + fixed_mul(a.m02, b.m20) as i128;
        let e01: i128 = fixed_mul(a.m00, b.m01) as i128 + fixed_mul(a.m01, b.m11) as i128
            + fixed_mul(a.m02, b.m21) as i128;
        let e02: i128 = fixed_mul(a.m00, b.m02) as i128 + fixed_mul(a.m01, b.m12) as i128
            + fixed_mul(a.m02, b.m22) as i128;
        let e10: i128 = fixed_mul(a.m10, b.m00) as i128 + fixed_mul(a.m11, b.m10) as i128
            + fixed_mul(a.m12, b.m20) as i128;
        let e11: i128 = fixed_mul(a.m10, b.m01) as i128 + fixed_mul(a.m11, b.m11) as i128
            + fixed_mul(a.m12, b.m21) as i128;
        let e12: i128 = fixed_mul(a.m10, b.m02) as i128 + fixed_mul(a.m11, b.m12) as i128
            + fixed_mul(a.m12, b.m22) as i128;
        let e20: i128 = fixed_mul(a.m20, b.m00) as i128 + fixed_mul(a.m21, b.m10) as i128
            + fixed_mul(a.m22, b.m20) as i128;
        let e21: i128 = fixed_mul(a.m20, b.m01) as i128 + fixed_mul(a.m21, b.m11) as i128
            + fixed_mul(a.m22, b.m21) as i128;
        let e22: i128 = fixed_mul(a.m20, b.m02) as i128 + fixed_mul(a.m21, b.m12) as i128
            + fixed_mul(a.m22, b.m22) as i128;
        Matrix3 {
            m00: e00 as i64,
            m01: e01 as i64,
            m02: e02 as i64,
            m10: e10 as i64,
            m11: e11 as i64,
            m12: e12 as i64,
            m20: e20 as i64,
            m21: e21 as i64,
            m22: e22 as i64,
        }
    }

    /// Scales every entry by `scal`, rounding each product to the grid.
    pub fn mult_scal(matrix_a: &Matrix3, scal: i64) -> (r: Matrix3)
        requires
            in_i64(fmul(matrix_a.m00 as int, scal as int)),
            in_i64(fmul(matrix_a.m01 as int, scal as int)),
            in_i64(fmul(matrix_a.m02 as int, scal as int)),
            in_i64(fmul(matrix_a.m10 as int, scal as int)),
            in_i64(fmul(matrix_a.m11 as int, scal as int)),
            in_i64(fmul(matrix_a.m12 as int, scal as int)),
            in_i64(fmul(matrix_a.m20 as int, scal as int)),
            in_i64(fmul(matrix_a.m21 as int, scal as int)),
            in_i64(fmul(matrix_a.m22 as int, scal as int)),
        ensures
            r.m00 == fmul(matrix_a.m00 as int, scal as int),
            r.m01 == fmul(matrix_a.m01 as int, scal as int),
            r.m02 == fmul(matrix_a.m02 as int, scal as int),
            r.m10 == fmul(matrix_a.m10 as int, scal as int),
            r.m11 == fmul(matrix_a.m11 as int, scal as int),
            r.m12 == fmul(matrix_a.m12 as int, scal as int),
            r.m20 == fmul(matrix_a.m20 as int, scal as int),
            r.m21 == fmul(matrix_a.m21 as int, scal as int),
            r.m22 == fmul(matrix_a.m22 as int, scal as int),
    {
        Matrix3 {
            m00: fixed_mul(matrix_a.m00, scal),
            m01: fixed_mul(matrix_a.m01, scal),
            m02: fixed_mul(matrix_a.m02, scal),
            m10: fixed_mul(matrix_a.m10, scal),
            m11: fixed_mul(matrix_a.m11, scal),
            m12: fixed_mul(matrix_a.m12, scal),
            m20: fixed_mul(matrix_a.m20, scal),
            m21: fixed_mul(matrix_a.m21, scal),
            m22: fixed_mul(matrix_a.m22, scal),
        }
    }

    /// Divides every entry by `scal` (`scal != 0`), rounding each quotient
    /// to the grid.
    pub fn div_scal(matrix_a: &Matrix3, scal: i64) -> (r: Matrix3)
        requires
            scal != 0,
            in_i64(fdiv(matrix_a.m00 as int, scal as int)),
            in_i64(fdiv(matrix_a.m01 as int, scal as int)),
            in_i64(fdiv(matrix_a.m02 as int, scal as int)),
            in_i64(fdiv(matrix_a.m10 as int, scal as int)),
            in_i64(fdiv(matrix_a.m11 as int, scal as int)),
            in_i64(fdiv(matrix_a.m12 as int, scal as int)),
            in_i64(fdiv(matrix_a.m20 as int, scal as int)),
            in_i64(fdiv(matrix_a.m21 as int, scal as int)),
            in_i64(fdiv(matrix_a.m22 as int, scal as int)),
        ensures
            r.m00 == fdiv(matrix_a.m00 as int, scal as int),
            r.m01 == fdiv(matrix_a.m01 as int, scal as int),
            r.m02 == fdiv(matrix_a.m02 as int, scal as int),
            r.m10 == fdiv(matrix_a.m10 as int, scal as int),
            r.m11 == fdiv(matrix_a.m11 as int, scal as int),
            r.m12 == fdiv(matrix_a.m12 as int, scal as int),
            r.m20 == fdiv(matrix_a.m20 as int, scal as int),
            r.m21 == fdiv(matrix_a.m21 as int, scal as int),
            r.m22 == fdiv(matrix_a.m22 as int, scal as int),
    {
        Matrix3 {
            m00: fixed_div(matrix_a.m00, scal),
            m01: fixed_div(matrix_a.m01, scal),
            m02: fixed_div(matrix_a.m02, scal),
            m10: fixed_div(matrix_a.m10, scal),
            m11: fixed_div(matrix_a.m11, scal),
            m12: fixed_div(matrix_a.m12, scal),
            m20: fixed_div(matrix_a.m20, scal),
            m21: fixed_div(matrix_a.m21, scal),
            m22: fixed_div(matrix_a.m22, scal),
        }
    }

    /// Swaps rows and columns.
    pub fn transpose(self) -> (r: Matrix3)
        ensures
            r == self.transpose_spec(),
    {
        Matrix3 {
            m00: self.m00,
            m01: self.m10,
            m02: self.m20,
            m10: self.m01,
            m11: self.m11,
            m12: self.m21,
            m20: self.m02,
            m21: self.m12,
            m22: self.m22,
        }
    }

    /// The 2x2 matrix left after deleting row `row` and column `col`.
    pub fn submatrix(&self, row: usize, col: usize) -> (r: Matrix2)
        requires
            row < 3,
            col < 3,
        ensures
            r == self.submatrix_spec(row as int, col as int),
    {
        let idx: usize = row * 3 + col;
        if idx == 0 {
            Matrix2 { m00: self.m11, m01: self.m12, m10: self.m21, m11: self.m22 }
        } else if idx == 1 {
            Matrix2 { m00: self.m10, m01: self.m12, m10: self.m20, m11: self.m22 }
        } else if idx == 2 {
            Matrix2 { m00: self.m10, m01: self.m11, m10: self.m20, m11: self.m21 }
        } else if idx == 3 {
            Matrix2 { m00: self.m01, m01: self.m02, m10: self.m21, m11: self.m22 }
        } else if idx == 4 {
            Matrix2 { m00: self.m00, m01: self.m02, m10: self.m20, m11: self.m22 }
        } else if idx == 5 {
            Matrix2 { m00: self.m00, m01: self.m01, m10: self.m20, m11: self.m21 }
        } else if idx == 6 {
            Matrix2 { m00: self.m01, m01: self.m02, m10: self.m11, m11: self.m12 }
        } else if idx == 7 {
            Matrix2 { m00: self.m00, m01: self.m02, m10: self.m10, m11: self.m12 }
        } else {
            Matrix2 { m00: self.m00, m01: self.m01, m10: self.m10, m11: self.m11 }
        }
    }

    /// The minor at `(row, col)`: the determinant of the submatrix.
    pub fn minor(&self, row: usize, col: usize) -> (r: i64)
        requires
            row < 3,
            col < 3,
            self.submatrix_spec(row as int, col as int).det_fits(),
        ensures
            r as int == self.minor_spec(row as int, col as int),
    {
        let submatrix: Matrix2 = self.submatrix(row, col);
        submatrix.det()
    }

    /// The cofactor at `(row, col)`: the minor, negated when `row + col`
    /// is odd.
    pub fn cofactor(&self, row: usize, col: usize) -> (r: i64)
        requires
            row < 3,
            col < 3,
            self.cofactor_fits(row as int, col as int),
        ensures
            r as int == self.cofactor_spec(row as int, col as int),
    {
        let minor: i64 = self.minor(row, col);
        if (row + col) % 2 == 0 {
            minor
        } else {
            -minor
        }
    }

    /// The rounded determinant: cofactor expansion along the first row.
    pub fn det(&self) -> (r: i64)
        requires
            self.det_fits(),
        ensures
            r as int == self.det_spec(),
    {
        let t0: i128 = fixed_mul(self.m00, self.cofactor(0, 0)) as i128;
        let t1: i128 = fixed_mul(self.m01, self.cofactor(0, 1)) as i128;
        let t2: i128 = fixed_mul(self.m02, self.cofactor(0, 2)) as i128;
        (t0 + t1 + t2) as i64
    }

    /// Whether the determinant's magnitude exceeds the comparison epsilon.
    pub fn invertible(&self) -> (r: bool)
        requires
            self.det_fits(),
        ensures
            r == self.invertible_spec(),
    {
        let d: i64 = self.det();
        d > crate::EPSILON_STEPS || d < -crate::EPSILON_STEPS
    }

    /// The inverse: the transposed cofactor matrix divided by the
    /// determinant, or `None` when the matrix is not invertible.
    pub fn inverse(self) -> (r: Option<Matrix3>)
        requires
            self.inverse_fits(),
        ensures
            r is Some <==> self.invertible_spec(),
            self.invertible_spec() ==> r == Some(self.inverse_spec()),
            self.invertible_spec() ==> {
                let inv = r->Some_0;
                &&& inv.m00 as int == fdiv(self.cofactor_spec(0, 0), self.det_spec())
                &&& inv.m01 as int == fdiv(self.cofactor_spec(1, 0), self.det_spec())
                &&& inv.m02 as int == fdiv(self.cofactor_spec(2, 0), self.det_spec())
                &&& inv.m10 as int == fdiv(self.cofactor_spec(0, 1), self.det_spec())
                &&& inv.m11 as int == fdiv(self.cofactor_spec(1, 1), self.det_spec())
                &&& inv.m12 as int == fdiv(self.cofactor_spec(2, 1), self.det_spec())
                &&& inv.m20 as int == fdiv(self.cofactor_spec(0, 2), self.det_spec())
                &&& inv.m21 as int == fdiv(self.cofactor_spec(1, 2), self.det_spec())
                &&& inv.m22 as int == fdiv(self.cofactor_spec(2, 2), self.det_spec())
            },
    {
        if !self.invertible() {
            None
        } else {
            let det: i64 = self.det();
            let adjoint = Matrix3 {
                m00: self.cofactor(0, 0),
                m01: self.cofactor(1, 0),
                m02: self.cofactor(2, 0),
                m10: self.cofactor(0, 1),
                m11: self.cofactor(1, 1),
                m12: self.cofactor(2, 1),
                m20: self.cofactor(0, 2),
                m21: self.cofactor(1, 2),
                m22: self.cofactor(2, 2),
            };
            Some(Matrix3::div_scal(&adjoint, det))
        }
    }

    /// Entries within strictly less than the comparison epsilon of each
    /// other everywhere: the approximate comparison for matrices.
    pub open spec fn approx_eq_spec(self, other: Matrix3) -> bool {
        &&& close_strict_spec(self.m00 as int, other.m00 as int)
        &&& close_strict_spec(self.m01 as int, other.m01 as int)
        &&& close_strict_spec(self.m02 as int, other.m02 as int)
        &&& close_strict_spec(self.m10 as int, other.m10 as int)
        &&& close_strict_spec(self.m11 as int, other.m11 as int)
        &&& close_strict_spec(self.m12 as int, other.m12 as int)
        &&& close_strict_spec(self.m20 as int, other.m20 as int)
        &&& close_strict_spec(self.m21 as int, other.m21 as int)
        &&& close_strict_spec(self.m22 as int, other.m22 as int)
    }

    /// Compares two matrices entry by entry, requiring a deviation
    /// strictly below the comparison epsilon.
    pub fn approx_eq(&self, other: &Matrix3) -> (r: bool)
        ensures
            r == self.approx_eq_spec(*other),
    {
        let r00: bool = close_strict(self.m00, other.m00);
        let r01: bool = close_strict(self.m01, other.m01);
        let r02: bool = close_strict(self.m02, other.m02);
        let r10: bool = close_strict(self.m10, other.m10);
        let r11: bool = close_strict(self.m11, other.m11);
        let r12: bool = close_strict(self.m12, other.m12);
        let r20: bool = close_strict(self.m20, other.m20);
        let r21: bool = close_strict(self.m21, other.m21);
        let r22: bool = close_strict(self.m22, other.m22);
        r00 && r01 && r02 && r10 && r11 && r12 && r20 && r21 && r22
    }
}

impl Default for Matrix3 {
    /// The default matrix is the zero matrix.
    fn default() -> (r: Matrix3)
        ensures
            r == Matrix3::zero_spec(),
    {
        Matrix3::zero()
    }
}


/// The transpose of a product is the product of the transposes in
/// reverse order: every entry of both sides is the same sum of the same
/// rounded products, by commutativity of scalar multiplication.
pub proof fn lemma_mul_transpose(a: Matrix3, b: Matrix3)
    ensures
        Matrix3::mul_spec(a, b).transpose_spec() == Matrix3::mul_spec(
            b.transpose_spec(),
            a.transpose_spec(),
        ),
{
    assert forall|p: int, q: int| #[trigger] fmul(p, q) == fmul(q, p) by {
        crate::fixed::lemma_fmul_comm(p, q);
    }
}


/// The minor at `(r, c)` under exact (unrounded) scalar arithmetic.
pub open spec fn minor_exact3(m: Matrix3, r: int, c: int) -> int {
    crate::matrix2::det_exact2(m.submatrix_spec(r, c))
}

/// The cofactor at `(r, c)` under exact scalar arithmetic.
pub open spec fn cofactor_exact3(m: Matrix3, r: int, c: int) -> int {
    if (r + c) % 2 == 0 {
        minor_exact3(m, r, c)
    } else {
        -minor_exact3(m, r, c)
    }
}

/// The determinant under exact scalar arithmetic: cofactor expansion
/// along the first row.
pub open spec fn det_exact3(m: Matrix3) -> int {
    m.m00 * cofactor_exact3(m, 0, 0) + m.m01 * cofactor_exact3(m, 0, 1) + m.m02 * cofactor_exact3(
        m,
        0,
        2,
    )
}

/// Entry `(i, j)` of the exact product of the adjugate of `m` (the
/// transposed cofactor matrix) with `m`.
pub open spec fn adj_mul_entry_exact3(m: Matrix3, i: int, j: int) -> int {
    cofactor_exact3(m, 0, i) * m.entry(0, j) + cofactor_exact3(m, 1, i) * m.entry(1, j)
        + cofactor_exact3(m, 2, i) * m.entry(2, j)
}

/// Under exact scalar arithmetic, the transposed cofactor matrix built by
/// `inverse` inverts the matrix: the adjugate times the matrix is the
/// determinant times the identity.
pub proof fn lemma_adjugate_mul_exact3(m: Matrix3)
    ensures
        adj_mul_entry_exact3(m, 0, 0) == det_exact3(m),
        adj_mul_entry_exact3(m, 1, 1) == det_exact3(m),
        adj_mul_entry_exact3(m, 2, 2) == det_exact3(m),
        adj_mul_entry_exact3(m, 0, 1) == 0,
        adj_mul_entry_exact3(m, 0, 2) == 0,
        adj_mul_entry_exact3(m, 1, 0) == 0,
        adj_mul_entry_exact3(m, 1, 2) == 0,
        adj_mul_entry_exact3(m, 2, 0) == 0,
        adj_mul_entry_exact3(m, 2, 1) == 0,
{
    lemma_adj3_raw_00(m.m00 as int, m.m01 as int, m.m02 as int, m.m10 as int, m.m11 as int, m.m12 as int, m.m20 as int, m.m21 as int, m.m22 as int);
    lemma_adj3_raw_01(m.m00 as int, m.m01 as int, m.m02 as int, m.m10 as int, m.m11 as int, m.m12 as int, m.m20 as int, m.m21 as int, m.m22 as int);
    lemma_adj3_raw_02(m.m00 as int, m.m01 as int, m.m02 as int, m.m10 as int, m.m11 as int, m.m12 as int, m.m20 as int, m.m21 as int, m.m22 as int);
    lemma_adj3_raw_10(m.m00 as int, m.m01 as int, m.m02 as int, m.m10 as int, m.m11 as int, m.m12 as int, m.m20 as int, m.m21 as int, m.m22 as int);
    lemma_adj3_raw_11(m.m00 as int, m.m01 as int, m.m02 as int, m.m10 as int, m.m11 as int, m.m12 as int, m.m20 as int, m.m21 as int, m.m22 as int);
    lemma_adj3_raw_12(m.m00 as int, m.m01 as int, m.m02 as int, m.m10 as int, m.m11 as int, m.m12 as int, m.m20 as int, m.m21 as int, m.m22 as int);
    lemma_adj3_raw_20(m.m00 as int, m.m01 as int, m.m02 as int, m.m10 as int, m.m11 as int, m.m12 as int, m.m20 as int, m.m21 as int, m.m22 as int);
    lemma_adj3_raw_21(m.m00 as int, m.m01 as int, m.m02 as int, m.m10 as int, m.m11 as int, m.m12 as int, m.m20 as int, m.m21 as int, m.m22 as int);
    lemma_adj3_raw_22(m.m00 as int, m.m01 as int, m.m02 as int, m.m10 as int, m.m11 as int, m.m12 as int, m.m20 as int, m.m21 as int, m.m22 as int);
}

/// One entry of the exact adjugate law, over raw entries.
proof fn lemma_adj3_raw_00(m00: int, m01: int, m02: int, m10: int, m11: int, m12: int, m20: int, m21: int, m22: int)
    ensures
        (m11 * m22 - m12 * m21) * m00 + (-(m01 * m22 - m02 * m21)) * m10 + (m01 * m12 - m02 * m11) * m20 == (m00 * (m11 * m22 - m12 * m21) + m01 * (-(m10 * m22 - m12 * m20)) + m02 * (m10 * m21 - m11 * m20)),
{
    assert((m11 * m22 - m12 * m21) * m00 == (m00 * m11 * m22) - (m00 * m12 * m21)) by (nonlinear_arith);
    assert((-(m01 * m22 - m02 * m21)) * m10 == -(m01 * m10 * m22) + (m02 * m10 * m21)) by (nonlinear_arith);
    assert((m01 * m12 - m02 * m11) * m20 == (m01 * m12 * m20) - (m02 * m11 * m20)) by (nonlinear_arith);
    assert(m00 * (m11 * m22 - m12 * m21) == (m00 * m11 * m22) - (m00 * m12 * m21)) by (nonlinear_arith);
    assert(m01 * (-(m10 * m22 - m12 * m20)) == -(m01 * m10 * m22) + (m01 * m12 * m20)) by (nonlinear_arith);
    assert(m02 * (m10 * m21 - m11 * m20) == (m02 * m10 * m21) - (m02 * m11 * m20)) by (nonlinear_arith);
}

/// One entry of the exact adjugate law, over raw entries.
proof fn lemma_adj3_raw_01(m00: int, m01: int, m02: int, m10: int, m11: int, m12: int, m20: int, m21: int, m22: int)
    ensures
        (m11 * m22 - m12 * m21) * m01 + (-(m01 * m22 - m02 * m21)) * m11 + (m01 * m12 - m02 * m11) * m21 == 0,
{
    assert((m11 * m22 - m12 * m21) * m01 == (m01 * m11 * m22) - (m01 * m12 * m21)) by (nonlinear_arith);
    assert((-(m01 * m22 - m02 * m21)) * m11 == -(m01 * m11 * m22) + (m02 * m11 * m21)) by (nonlinear_arith);
    assert((m01 * m12 - m02 * m11) * m21 == (m01 * m12 * m21) - (m02 * m11 * m21)) by (nonlinear_arith);
}

/// One entry of the exact adjugate law, over raw entries.
proof fn lemma_adj3_raw_02(m00: int, m01: int, m02: int, m10: int, m11: int, m12: int, m20: int, m21: int, m22: int)
    ensures
        (m11 * m22 - m12 * m21) * m02 + (-(m01 * m22 - m02 * m21)) * m12 + (m01 * m12 - m02 * m11) * m22 == 0,
{
    assert((m11 * m22 - m12 * m21) * m02 == (m02 * m11 * m22) - (m02 * m12 * m21)) by (nonlinear_arith);
    assert((-(m01 * m22 - m02 * m21)) * m12 == -(m01 * m12 * m22) + (m02 * m12 * m21)) by (nonlinear_arith);
    assert((m01 * m12 - m02 * m11) * m22 == (m01 * m12 * m22) - (m02 * m11 * m22)) by (nonlinear_arith);
}

/// One entry of the exact adjugate law, over raw entries.
proof fn lemma_adj3_raw_10(m00: int, m01: int, m02: int, m10: int, m11: int, m12: int, m20: int, m21: int, m22: int)
    ensures
        (-(m10 * m22 - m12 * m20)) * m00 + (m00 * m22 - m02 * m20) * m10 + (-(m00 * m12 - m02 * m10)) * m20 == 0,
{
    assert((-(m10 * m22 - m12 * m20)) * m00 == -(m00 * m10 * m22) + (m00 * m12 * m20)) by (nonlinear_arith);
    assert((m00 * m22 - m02 * m20) * m10 == (m00 * m10 * m22) - (m02 * m10 * m20)) by (nonlinear_arith);
    assert((-(m00 * m12 - m02 * m10)) * m20 == -(m00 * m12 * m20) + (m02 * m10 * m20)) by (nonlinear_arith);
}

/// One entry of the exact adjugate law, over raw entries.
proof fn lemma_adj3_raw_11(m00: int, m01: int, m02: int, m10: int, m11: int, m12: int, m20: int, m21: int, m22: int)
    ensures
        (-(m10 * m22 - m12 * m20)) * m01 + (m00 * m22 - m02 * m20) * m11 + (-(m00 * m12 - m02 * m10)) * m21 == (m00 * (m11 * m22 - m12 * m21) + m01 * (-(m10 * m22 - m12 * m20)) + m02 * (m10 * m21 - m11 * m20)),
{
    assert((-(m10 * m22 - m12 * m20)) * m01 == -(m01 * m10 * m22) + (m01 * m12 * m20)) by (nonlinear_arith);
    assert((m00 * m22 - m02 * m20) * m11 == (m00 * m11 * m22) - (m02 * m11 * m20)) by (nonlinear_arith);
    assert((-(m00 * m12 - m02 * m10)) * m21 == -(m00 * m12 * m21) + (m02 * m10 * m21)) by (nonlinear_arith);
    assert(m00 * (m11 * m22 - m12 * m21) == (m00 * m11 * m22) - (m00 * m12 * m21)) by (nonlinear_arith);
    assert(m01 * (-(m10 * m22 - m12 * m20)) == -(m01 * m10 * m22) + (m01 * m12 * m20)) by (nonlinear_arith);
    assert(m02 * (m10 * m21 - m11 * m20) == (m02 * m10 * m21) - (m02 * m11 * m20)) by (nonlinear_arith);
}

/// One entry of the exact adjugate law, over raw entries.
proof fn lemma_adj3_raw_12(m00: int, m01: int, m02: int, m10: int, m11: int, m12: int, m20: int, m21: int, m22: int)
    ensures
        (-(m10 * m22 - m12 * m20)) * m02 + (m00 * m22 - m02 * m20) * m12 + (-(m00 * m12 - m02 * m10)) * m22 == 0,
{
    assert((-(m10 * m22 - m12 * m20)) * m02 == -(m02 * m10 * m22) + (m02 * m12 * m20)) by (nonlinear_arith);
    assert((m00 * m22 - m02 * m20) * m12 == (m00 * m12 * m22) - (m02 * m12 * m20)) by (nonlinear_arith);
    assert((-(m00 * m12 - m02 * m10)) * m22 == -(m00 * m12 * m22) + (m02 * m10 * m22)) by (nonlinear_arith);
}

/// One entry of the exact adjugate law, over raw entries.
proof fn lemma_adj3_raw_20(m00: int, m01: int, m02: int, m10: int, m11: int, m12: int, m20: int, m21: int, m22: int)
    ensures
        (m10 * m21 - m11 * m20) * m00 + (-(m00 * m21 - m01 * m20)) * m10 + (m00 * m11 - m01 * m10) * m20 == 0,
{
    assert((m10 * m21 - m11 * m20) * m00 == (m00 * m10 * m21) - (m00 * m11 * m20)) by (nonlinear_arith);
    assert((-(m00 * m21 - m01 * m20)) * m10 == -(m00 * m10 * m21) + (m01 * m10 * m20)) by (nonlinear_arith);
    assert((m00 * m11 - m01 * m10) * m20 == (m00 * m11 * m20) - (m01 * m10 * m20)) by (nonlinear_arith);
}

/// One entry of the exact adjugate law, over raw entries.
proof fn lemma_adj3_raw_21(m00: int, m01: int, m02: int, m10: int, m11: int, m12: int, m20: int, m21: int, m22: int)
    ensures
        (m10 * m21 - m11 * m20) * m01 + (-(m00 * m21 - m01 * m20)) * m11 + (m00 * m11 - m01 * m10) * m21 == 0,
{
    assert((m10 * m21 - m11 * m20) * m01 == (m01 * m10 * m21) - (m01 * m11 * m20)) by (nonlinear_arith);
    assert((-(m00 * m21 - m01 * m20)) * m11 == -(m00 * m11 * m21) + (m01 * m11 * m20)) by (nonlinear_arith);
    assert((m00 * m11 - m01 * m10) * m21 == (m00 * m11 * m21) - (m01 * m10 * m21)) by (nonlinear_arith);
}

/// One entry of the exact adjugate law, over raw entries.
proof fn lemma_adj3_raw_22(m00: int, m01: int, m02: int, m10: int, m11: int, m12: int, m20: int, m21: int, m22: int)
    ensures
        (m10 * m21 - m11 * m20) * m02 + (-(m00 * m21 - m01 * m20)) * m12 + (m00 * m11 - m01 * m10) * m22 == (m00 * (m11 * m22 - m12 * m21) + m01 * (-(m10 * m22 - m12 * m20)) + m02 * (m10 * m21 - m11 * m20)),
{
    assert((m10 * m21 - m11 * m20) * m02 == (m02 * m10 * m21) - (m02 * m11 * m20)) by (nonlinear_arith);
    assert((-(m00 * m21 - m01 * m20)) * m12 == -(m00 * m12 * m21) + (m01 * m12 * m20)) by (nonlinear_arith);
    assert((m00 * m11 - m01 * m10) * m22 == (m00 * m11 * m22) - (m01 * m10 * m22)) by (nonlinear_arith);
    assert(m00 * (m11 * m22 - m12 * m21) == (m00 * m11 * m22) - (m00 * m12 * m21)) by (nonlinear_arith);
    assert(m01 * (-(m10 * m22 - m12 * m20)) == -(m01 * m10 * m22) + (m01 * m12 * m20)) by (nonlinear_arith);
    assert(m02 * (m10 * m21 - m11 * m20) == (m02 * m10 * m21) - (m02 * m11 * m20)) by (nonlinear_arith);
}

} // verus!
