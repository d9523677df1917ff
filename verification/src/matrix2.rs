//! 2x2 matrices: the base case of the cofactor-expansion determinant
//! chain.  Storage is row-major; `mRC` is the entry at row R, column C.

use vstd::prelude::*;

verus! {

use crate::fixed::close_strict;
use crate::fixed::close_strict_spec;
use crate::fixed::fdiv;
use crate::fixed::fixed_div;
use crate::fixed::fixed_mul;
use crate::fixed::fmul;
use crate::fixed::in_i64;

/// A 2x2 matrix of grid-step scalars, row-major.
#[derive(Clone, Copy, Debug, PartialEq, Eq, Structural)]
pub struct Matrix2 {
    pub m00: i64,
    pub m01: i64,
    pub m10: i64,
    pub m11: i64,
}

/// Failure of a bounds-checked matrix update.
#[derive(Clone, Copy, Debug, PartialEq, Eq, Structural)]
pub enum Matrix2Error {
    OutOfBounds,
}

impl Matrix2 {
    /// The entry at row `r`, column `c` (both in 0..2).
    pub open spec fn entry(self, r: int, c: int) -> int {
        if r == 0 && c == 0 {
            self.m00 as int
        } else if r == 0 && c == 1 {
            self.m01 as int
        } else if r == 1 && c == 0 {
            self.m10 as int
        } else {
            self.m11 as int
        }
    }

    /// The matrix with the entry at `(r, c)` replaced by `val`.
    pub open spec fn set_spec(self, r: int, c: int, val: i64) -> Matrix2 {
        if r == 0 && c == 0 {
            Matrix2 { m00: val, ..self }
        } else if r == 0 && c == 1 {
            Matrix2 { m01: val, ..self }
        } else if r == 1 && c == 0 {
            Matrix2 { m10: val, ..self }
        } else {
            Matrix2 { m11: val, ..self }
        }
    }

    /// The matrix with rows and columns swapped.
    pub open spec fn transpose_spec(self) -> Matrix2 {
        Matrix2 { m00: self.m00, m01: self.m10, m10: self.m01, m11: self.m11 }
    }

    /// The rounded determinant: `ad - bc`.
    pub open spec fn det_spec(self) -> int {
        fmul(self.m00 as int, self.m11 as int) - fmul(self.m01 as int, self.m10 as int)
    }

    /// Both rounded products of the determinant, and their difference,
    /// stay in the scalar range.
    pub open spec fn det_fits(self) -> bool {
        &&& in_i64(fmul(self.m00 as int, self.m11 as int))
        &&& in_i64(fmul(self.m01 as int, self.m10 as int))
        &&& in_i64(self.det_spec())
    }

    /// The magnitude of the determinant exceeds the comparison epsilon.
    pub open spec fn invertible_spec(self) -> bool {
        self.det_spec() > crate::EPSILON_STEPS || self.det_spec() < -(crate::EPSILON_STEPS as int)
    }

    /// Entry `(i, j)` of the rounded matrix product `a * b`.
    pub open spec fn mul_entry(a: Matrix2, b: Matrix2, i: int, j: int) -> int {
        fmul(a.entry(i, 0), b.entry(0, j)) + fmul(a.entry(i, 1), b.entry(1, j))
    }

    /// The rounded matrix product.
    pub open spec fn mul_spec(a: Matrix2, b: Matrix2) -> Matrix2 {
        Matrix2 {
            m00: Matrix2::mul_entry(a, b, 0, 0) as i64,
            m01: Matrix2::mul_entry(a, b, 0, 1) as i64,
            m10: Matrix2::mul_entry(a, b, 1, 0) as i64,
            m11: Matrix2::mul_entry(a, b, 1, 1) as i64,
        }
    }

    /// Every rounded product of `a * b`, and every entry, stays in the
    /// scalar range.
    pub open spec fn mul_fits(a: Matrix2, b: Matrix2) -> bool {
        &&& in_i64(fmul(a.m00 as int, b.m00 as int))
        &&& in_i64(fmul(a.m01 as int, b.m10 as int))
        &&& in_i64(fmul(a.m00 as int, b.m01 as int))
        &&& in_i64(fmul(a.m01 as int, b.m11 as int))
        &&& in_i64(fmul(a.m10 as int, b.m00 as int))
        &&& in_i64(fmul(a.m11 as int, b.m10 as int))
        &&& in_i64(fmul(a.m10 as int, b.m01 as int))
        &&& in_i64(fmul(a.m11 as int, b.m11 as int))
        &&& in_i64(Matrix2::mul_entry(a, b, 0, 0))
        &&& in_i64(Matrix2::mul_entry(a, b, 0, 1))
        &&& in_i64(Matrix2::mul_entry(a, b, 1, 0))
        &&& in_i64(Matrix2::mul_entry(a, b, 1, 1))
    }

    /// All four entries of the inverse stay in the scalar range.
    pub open spec fn inverse_fits(self) -> bool {
        &&& self.det_fits()
        &&& in_i64(-self.m01 as int)
        &&& in_i64(-self.m10 as int)
        &&& self.invertible_spec() ==> {
            &&& in_i64(fdiv(self.m11 as int, self.det_spec()))
            &&& in_i64(fdiv(-self.m01 as int, self.det_spec()))
            &&& in_i64(fdiv(-self.m10 as int, self.det_spec()))
            &&& in_i64(fdiv(self.m00 as int, self.det_spec()))
        }
    }

    /// The inverse as a value: the adjugate divided by the determinant.
    /// Meaningful when the matrix is invertible.
    pub open spec fn inverse_spec(self) -> Matrix2 {
        Matrix2 {
            m00: fdiv(self.m11 as int, self.det_spec()) as i64,
            m01: fdiv(-self.m01 as int, self.det_spec()) as i64,
            m10: fdiv(-self.m10 as int, self.det_spec()) as i64,
            m11: fdiv(self.m00 as int, self.det_spec()) as i64,
        }
    }

    /// The all-zero matrix.
    pub fn zero() -> (r: Matrix2)
        ensures
            r == (Matrix2 { m00: 0i64, m01: 0i64, m10: 0i64, m11: 0i64 }),
    {
        Matrix2 { m00: 0, m01: 0, m10: 0, m11: 0 }
    }

    /// The all-zero matrix.
    pub fn new() -> (r: Matrix2)
        ensures
            r == (Matrix2 { m00: 0i64, m01: 0i64, m10: 0i64, m11: 0i64 }),
    {
        Matrix2::zero()
    }

    /// Builds the matrix from four entries in row-major order.
    pub fn from_array(arr: [i64; 4]) -> (r: Matrix2)
        ensures
            r == (Matrix2 { m00: arr[0], m01: arr[1], m10: arr[2], m11: arr[3] }),
    {
        Matrix2 { m00: arr[0], m01: arr[1], m10: arr[2], m11: arr[3] }
    }

    /// Builds the matrix from four entries in column-major order.
    pub fn from_array_by_col(arr: [i64; 4]) -> (r: Matrix2)
        ensures
            r == (Matrix2 { m00: arr[0], m01: arr[2], m10: arr[1], m11: arr[3] }),
    {
        Matrix2 { m00: arr[0], m01: arr[2], m10: arr[1], m11: arr[3] }
    }

    /// The entry at `(row, col)`, or `None` when either index is out of
    /// range.
    pub fn get(&self, row: usize, col: usize) -> (r: Option<i64>)
        ensures
            r == if row < 2 && col < 2 {
                Some(self.entry(row as int, col as int) as i64)
            } else {
                Option::<i64>::None
            },
    {
        if row >= 2 || col >= 2 {
            return None;
        }
        if row == 0 && col == 0 {
            Some(self.m00)
        } else if row == 0 {
            Some(self.m01)
        } else if col == 0 {
            Some(self.m10)
        } else {
            Some(self.m11)
        }
    }

    /// Overwrites the entry at `(row, col)`, or reports `OutOfBounds` and
    /// leaves the matrix unchanged when either index is out of range.
    pub fn set(&mut self, row: usize, col: usize, val: i64) -> (r: Result<(), Matrix2Error>)
        ensures
            r is Ok <==> row < 2 && col < 2,
            row < 2 && col < 2 ==> *final(self) == old(self).set_spec(
                row as int,
                col as int,
                val,
            ),
            !(row < 2 && col < 2) ==> *final(self) == *old(self),
    {
        if row >= 2 || col >= 2 {
            return Err(Matrix2Error::OutOfBounds);
        }
        if row == 0 && col == 0 {
            self.m00 = val;
        } else if row == 0 {
            self.m01 = val;
        } else if col == 0 {
            self.m10 = val;
        } else {
            self.m11 = val;
        }
        Ok(())
    }

    /// The multiplicative identity: 1.0 on the diagonal.
    pub fn identity() -> (r: Matrix2)
        ensures
            r == (Matrix2 { m00: crate::UNIT, m01: 0i64, m10: 0i64, m11: crate::UNIT }),
    {
        Matrix2 { m00: crate::UNIT, m01: 0, m10: 0, m11: crate::UNIT }
    }

    /// Entry-wise sum of two matrices.
    pub fn add(matrix_a: &Matrix2, matrix_b: &Matrix2) -> (r: Matrix2)
        requires
            in_i64(matrix_a.m00 + matrix_b.m00),
            in_i64(matrix_a.m01 + matrix_b.m01),
            in_i64(matrix_a.m10 + matrix_b.m10),
            in_i64(matrix_a.m11 + matrix_b.m11),
        ensures
            r.m00 == matrix_a.m00 + matrix_b.m00,
            r.m01 == matrix_a.m01 + matrix_b.m01,
            r.m10 == matrix_a.m10 + matrix_b.m10,
            r.m11 == matrix_a.m11 + matrix_b.m11,
    {
        Matrix2 {
            m00: matrix_a.m00 + matrix_b.m00,
            m01: matrix_a.m01 + matrix_b.m01,
            m10: matrix_a.m10 + matrix_b.m10,
            m11: matrix_a.m11 + matrix_b.m11,
        }
    }

    /// Entry-wise difference of two matrices.
    pub fn sub(matrix_a: &Matrix2, matrix_b: &Matrix2) -> (r: Matrix2)
        requires
            in_i64(matrix_a.m00 - matrix_b.m00),
            in_i64(matrix_a.m01 - matrix_b.m01),
            in_i64(matrix_a.m10 - matrix_b.m10),
            in_i64(matrix_a.m11 - matrix_b.m11),
        ensures
            r.m00 == matrix_a.m00 - matrix_b.m00,
            r.m01 == matrix_a.m01 - matrix_b.m01,
            r.m10 == matrix_a.m10 - matrix_b.m10,
            r.m11 == matrix_a.m11 - matrix_b.m11,
    {
        Matrix2 {
            m00: matrix_a.m00 - matrix_b.m00,
            m01: matrix_a.m01 - matrix_b.m01,
            m10: matrix_a.m10 - matrix_b.m10,
            m11: matrix_a.m11 - matrix_b.m11,
        }
    }

    /// Matrix product: each entry is the rounded dot product of a row of
    /// `matrix_a` with a column of `matrix_b`.
    pub fn mult_mat(matrix_a: &Matrix2, matrix_b: &Matrix2) -> (r: Matrix2)
        requires
            Matrix2::mul_fits(*matrix_a, *matrix_b),
        ensures
            r == Matrix2::mul_spec(*matrix_a, *matrix_b),
    {
        let e00: i128 = fixed_mul(matrix_a.m00, matrix_b.m00) as i128 + fixed_mul(
            matrix_a.m01,
            matrix_b.m10,
        ) as i128;
        let e01: i128 = fixed_mul(matrix_a.m00, matrix_b.m01) as i128 + fixed_mul(
            matrix_a.m01,
            matrix_b.m11,
        ) as i128;
        let e10: i128 = fixed_mul(matrix_a.m10, matrix_b.m00) as i128 + fixed_mul(
            matrix_a.m11,
            matrix_b.m10,
        ) as i128;
        let e11: i128 = fixed_mul(matrix_a.m10, matrix_b.m01) as i128 + fixed_mul(
            matrix_a.m11,
            matrix_b.m11,
        ) as i128;
        Matrix2 { m00: e00 as i64, m01: e01 as i64, m10: e10 as i64, m11: e11 as i64 }
    }

    /// Scales every entry by `scal`, rounding each product to the grid.
    pub fn mult_scal(matrix_a: &Matrix2, scal: i64) -> (r: Matrix2)
        requires
            in_i64(fmul(matrix_a.m00 as int, scal as int)),
            in_i64(fmul(matrix_a.m01 as int, scal as int)),
            in_i64(fmul(matrix_a.m10 as int, scal as int)),
            in_i64(fmul(matrix_a.m11 as int, scal as int)),
        ensures
            r.m00 == fmul(matrix_a.m00 as int, scal as int),
            r.m01 == fmul(matrix_a.m01 as int, scal as int),
            r.m10 == fmul(matrix_a.m10 as int, scal as int),
            r.m11 == fmul(matrix_a.m11 as int, scal as int),
    {
        Matrix2 {
            m00: fixed_mul(matrix_a.m00, scal),
            m01: fixed_mul(matrix_a.m01, scal),
            m10: fixed_mul(matrix_a.m10, scal),
            m11: fixed_mul(matrix_a.m11, scal),
        }
    }

    /// Divides every entry by `scal` (`scal != 0`), rounding each quotient
    /// to the grid.
    pub fn div_scal(matrix_a: &Matrix2, scal: i64) -> (r: Matrix2)
        requires
            scal != 0,
            in_i64(fdiv(matrix_a.m00 as int, scal as int)),
            in_i64(fdiv(matrix_a.m01 as int, scal as int)),
            in_i64(fdiv(matrix_a.m10 as int, scal as int)),
            in_i64(fdiv(matrix_a.m11 as int, scal as int)),
        ensures
            r.m00 == fdiv(matrix_a.m00 as int, scal as int),
            r.m01 == fdiv(matrix_a.m01 as int, scal as int),
            r.m10 == fdiv(matrix_a.m10 as int, scal as int),
            r.m11 == fdiv(matrix_a.m11 as int, scal as int),
    {
        Matrix2 {
            m00: fixed_div(matrix_a.m00, scal),
            m01: fixed_div(matrix_a.m01, scal),
            m10: fixed_div(matrix_a.m10, scal),
            m11: fixed_div(matrix_a.m11, scal),
        }
    }

    /// Swaps rows and columns.
    pub fn transpose(self) -> (r: Matrix2)
        ensures
            r == self.transpose_spec(),
    {
        Matrix2 { m00: self.m00, m01: self.m10, m10: self.m01, m11: self.m11 }
    }

    /// The rounded determinant `ad - bc`.
    pub fn det(&self) -> (r: i64)
        requires
            self.det_fits(),
        ensures
            r as int == self.det_spec(),
    {
        let ad: i128 = fixed_mul(self.m00, self.m11) as i128;
        let bc: i128 = fixed_mul(self.m01, self.m10) as i128;
        (ad - bc) as i64
    }

    /// Whether the determinant's magnitude exceeds the comparison epsilon.
    pub fn invertible(&self) -> (r: bool)
        requires
            self.det_fits(),
        ensures
            r == self.invertible_spec(),
    {
        let d: i64 = self.det();
        d > crate::EPSILON_STEPS || d < -crate::EPSILON_STEPS
    }

    /// The inverse: the adjugate divided by the determinant, or `None`
    /// when the matrix is not invertible.
    pub fn inverse(self) -> (r: Option<Matrix2>)
        requires
            self.inverse_fits(),
        ensures
            r is Some <==> self.invertible_spec(),
            self.invertible_spec() ==> r == Some(self.inverse_spec()),
            self.invertible_spec() ==> {
                let inv = r->Some_0;
                &&& inv.m00 as int == fdiv(self.m11 as int, self.det_spec())
                &&& inv.m01 as int == fdiv(-self.m01 as int, self.det_spec())
                &&& inv.m10 as int == fdiv(-self.m10 as int, self.det_spec())
                &&& inv.m11 as int == fdiv(self.m00 as int, self.det_spec())
            },
    {
        if !self.invertible() {
            None
        } else {
            let det: i64 = self.det();
            let adjoint = Matrix2::from_array([self.m11, -self.m01, -self.m10, self.m00]);
            Some(Matrix2::div_scal(&adjoint, det))
        }
    }

    /// Entries within strictly less than the comparison epsilon of each
    /// other everywhere: the approximate comparison for matrices.
    pub open spec fn approx_eq_spec(self, other: Matrix2) -> bool {
        &&& close_strict_spec(self.m00 as int, other.m00 as int)
        &&& close_strict_spec(self.m01 as int, other.m01 as int)
        &&& close_strict_spec(self.m10 as int, other.m10 as int)
        &&& close_strict_spec(self.m11 as int, other.m11 as int)
    }

    /// Compares two matrices entry by entry, requiring a deviation
    /// strictly below the comparison epsilon.
    pub fn approx_eq(&self, other: &Matrix2) -> (r: bool)
        ensures
            r == self.approx_eq_spec(*other),
    {
        let r00: bool = close_strict(self.m00, other.m00);
        let r01: bool = close_strict(self.m01, other.m01);
        let r10: bool = close_strict(self.m10, other.m10);
        let r11: bool = close_strict(self.m11, other.m11);
        r00 && r01 && r10 && r11
    }
}

impl Default for Matrix2 {
    /// The default matrix is the zero matrix.
    fn default() -> (r: Matrix2)
        ensures
            r == (Matrix2 { m00: 0i64, m01: 0i64, m10: 0i64, m11: 0i64 }),
    {
        Matrix2::zero()
    }
}


/// The transpose of a product is the product of the transposes in
/// reverse order: every entry of both sides is the same sum of the same
/// rounded products, by commutativity of scalar multiplication.
pub proof fn lemma_mul_transpose(a: Matrix2, b: Matrix2)
    ensures
        Matrix2::mul_spec(a, b).transpose_spec() == Matrix2::mul_spec(
            b.transpose_spec(),
            a.transpose_spec(),
        ),
{
    assert forall|p: int, q: int| #[trigger] fmul(p, q) == fmul(q, p) by {
        crate::fixed::lemma_fmul_comm(p, q);
    }
}


/// The determinant under exact (unrounded) scalar arithmetic.
pub open spec fn det_exact2(m: Matrix2) -> int {
    m.m00 * m.m11 - m.m01 * m.m10
}

/// Entry `(i, j)` of the exact product of the adjugate of `m` with `m`.
pub open spec fn adj_mul_entry_exact2(m: Matrix2, i: int, j: int) -> int {
    if i == 0 && j == 0 {
        m.m11 * m.m00 + (-m.m01) * m.m10
    } else if i == 0 && j == 1 {
        m.m11 * m.m01 + (-m.m01) * m.m11
    } else if i == 1 && j == 0 {
        (-m.m10) * m.m00 + m.m00 * m.m10
    } else {
        (-m.m10) * m.m01 + m.m00 * m.m11
    }
}

/// Under exact scalar arithmetic, the adjugate construction used by
/// `inverse` inverts the matrix: the adjugate times the matrix is the
/// determinant times the identity.
pub proof fn lemma_adjugate_mul_exact2(m: Matrix2)
    by (nonlinear_arith)
    ensures
        adj_mul_entry_exact2(m, 0, 0) == det_exact2(m),
        adj_mul_entry_exact2(m, 1, 1) == det_exact2(m),
        adj_mul_entry_exact2(m, 0, 1) == 0,
        adj_mul_entry_exact2(m, 1, 0) == 0,
{
}

} // verus!
