//! 4x4 matrices: the workhorse of the kernel.  Determinants expand by
//! cofactors along the first row through 3x3 submatrices; the inverse is
//! the transposed cofactor matrix divided by the determinant.  Storage is
//! row-major; `mRC` is the entry at row R, column C.

use vstd::prelude::*;

verus! {

use crate::fixed::fdiv;
use crate::fixed::fixed_div;
use crate::fixed::fixed_mul;
use crate::fixed::fmul;
use crate::fixed::in_i64;
use crate::fixed::close_strict;
use crate::fixed::close_strict_spec;
use crate::matrix3::Matrix3;
use crate::tuple::Tuple;

/// A 4x4 matrix of grid-step scalars, row-major.
#[derive(Clone, Copy, Debug, PartialEq, Eq, Structural)]
pub struct Matrix4 {
    pub m00: i64,
    pub m01: i64,
    pub m02: i64,
    pub m03: i64,
    pub m10: i64,
    pub m11: i64,
    pub m12: i64,
    pub m13: i64,
    pub m20: i64,
    pub m21: i64,
    pub m22: i64,
    pub m23: i64,
    pub m30: i64,
    pub m31: i64,
    pub m32: i64,
    pub m33: i64,
}

/// Failure of a bounds-checked matrix update.
#[derive(Clone, Copy, Debug, PartialEq, Eq, Structural)]
pub enum Matrix4Error {
    OutOfBounds,
}

impl Matrix4 {
    /// The entry at row `r`, column `c` (both in 0..4).
    pub open spec fn entry(self, r: int, c: int) -> int {
        if r == 0 && c == 0 {
            self.m00 as int
        } else if r == 0 && c == 1 {
            self.m01 as int
        } else if r == 0 && c == 2 {
            self.m02 as int
        } else if r == 0 && c == 3 {
            self.m03 as int
        } else if r == 1 && c == 0 {
            self.m10 as int
        } else if r == 1 && c == 1 {
            self.m11 as int
        } else if r == 1 && c == 2 {
            self.m12 as int
        } else if r == 1 && c == 3 {
            self.m13 as int
        } else if r == 2 && c == 0 {
            self.m20 as int
        } else if r == 2 && c == 1 {
            self.m21 as int
        } else if r == 2 && c == 2 {
            self.m22 as int
        } else if r == 2 && c == 3 {
            self.m23 as int
        } else if r == 3 && c == 0 {
            self.m30 as int
        } else if r == 3 && c == 1 {
            self.m31 as int
        } else if r == 3 && c == 2 {
            self.m32 as int
        } else {
            self.m33 as int
        }
    }

    /// The matrix with the entry at `(r, c)` replaced by `val`.
    pub open spec fn set_spec(self, r: int, c: int, val: i64) -> Matrix4 {
        if r == 0 && c == 0 {
            Matrix4 { m00: val, ..self }
        } else if r == 0 && c == 1 {
            Matrix4 { m01: val, ..self }
        } else if r == 0 && c == 2 {
            Matrix4 { m02: val, ..self }
        } else if r == 0 && c == 3 {
            Matrix4 { m03: val, ..self }
        } else if r == 1 && c == 0 {
            Matrix4 { m10: val, ..self }
        } else if r == 1 && c == 1 {
            Matrix4 { m11: val, ..self }
        } else if r == 1 && c == 2 {
            Matrix4 { m12: val, ..self }
        } else if r == 1 && c == 3 {
            Matrix4 { m13: val, ..self }
        } else if r == 2 && c == 0 {
            Matrix4 { m20: val, ..self }
        } else if r == 2 && c == 1 {
            Matrix4 { m21: val, ..self }
        } else if r == 2 && c == 2 {
            Matrix4 { m22: val, ..self }
        } else if r == 2 && c == 3 {
            Matrix4 { m23: val, ..self }
        } else if r == 3 && c == 0 {
            Matrix4 { m30: val, ..self }
        } else if r == 3 && c == 1 {
            Matrix4 { m31: val, ..self }
        } else if r == 3 && c == 2 {
            Matrix4 { m32: val, ..self }
        } else {
            Matrix4 { m33: val, ..self }
        }
    }

    /// The matrix with rows and columns swapped.
    pub open spec fn transpose_spec(self) -> Matrix4 {
        Matrix4 {
            m00: self.m00,
            m01: self.m10,
            m02: self.m20,
            m03: self.m30,
            m10: self.m01,
            m11: self.m11,
            m12: self.m21,
            m13: self.m31,
            m20: self.m02,
            m21: self.m12,
            m22: self.m22,
            m23: self.m32,
            m30: self.m03,
            m31: self.m13,
            m32: self.m23,
            m33: self.m33,
        }
    }

    /// The 3x3 matrix left after deleting row `r` and column `c`.
    pub open spec fn submatrix_spec(self, r: int, c: int) -> Matrix3 {
        if r == 0 && c == 0 {
            Matrix3 { m00: self.m11, m01: self.m12, m02: self.m13, m10: self.m21, m11: self.m22, m12: self.m23, m20: self.m31, m21: self.m32, m22: self.m33 }
        } else if r == 0 && c == 1 {
            Matrix3 { m00: self.m10, m01: self.m12, m02: self.m13, m10: self.m20, m11: self.m22, m12: self.m23, m20: self.m30, m21: self.m32, m22: self.m33 }
        } else if r == 0 && c == 2 {
            Matrix3 { m00: self.m10, m01: self.m11, m02: self.m13, m10: self.m20, m11: self.m21, m12: self.m23, m20: self.m30, m21: self.m31, m22: self.m33 }
        } else if r == 0 && c == 3 {
            Matrix3 { m00: self.m10, m01: self.m11, m02: self.m12, m10: self.m20, m11: self.m21, m12: self.m22, m20: self.m30, m21: self.m31, m22: self.m32 }
        } else if r == 1 && c == 0 {
            Matrix3 { m00: self.m01, m01: self.m02, m02: self.m03, m10: self.m21, m11: self.m22, m12: self.m23, m20: self.m31, m21: self.m32, m22: self.m33 }
        } else if r == 1 && c == 1 {
            Matrix3 { m00: self.m00, m01: self.m02, m02: self.m03, m10: self.m20, m11: self.m22, m12: self.m23, m20: self.m30, m21: self.m32, m22: self.m33 }
        } else if r == 1 && c == 2 {
            Matrix3 { m00: self.m00, m01: self.m01, m02: self.m03, m10: self.m20, m11: self.m21, m12: self.m23, m20: self.m30, m21: self.m31, m22: self.m33 }
        } else if r == 1 && c == 3 {
            Matrix3 { m00: self.m00, m01: self.m01, m02: self.m02, m10: self.m20, m11: self.m21, m12: self.m22, m20: self.m30, m21: self.m31, m22: self.m32 }
        } else if r == 2 && c == 0 {
            Matrix3 { m00: self.m01, m01: self.m02, m02: self.m03, m10: self.m11, m11: self.m12, m12: self.m13, m20: self.m31, m21: self.m32, m22: self.m33 }
        } else if r == 2 && c == 1 {
            Matrix3 { m00: self.m00, m01: self.m02, m02: self.m03, m10: self.m10, m11: self.m12, m12: self.m13, m20: self.m30, m21: self.m32, m22: self.m33 }
        } else if r == 2 && c == 2 {
            Matrix3 { m00: self.m00, m01: self.m01, m02: self.m03, m10: self.m10, m11: self.m11, m12: self.m13, m20: self.m30, m21: self.m31, m22: self.m33 }
        } else if r == 2 && c == 3 {
            Matrix3 { m00: self.m00, m01: self.m01, m02: self.m02, m10: self.m10, m11: self.m11, m12: self.m12, m20: self.m30, m21: self.m31, m22: self.m32 }
        } else if r == 3 && c == 0 {
            Matrix3 { m00: self.m01, m01: self.m02, m02: self.m03, m10: self.m11, m11: self.m12, m12: self.m13, m20: self.m21, m21: self.m22, m22: self.m23 }
        } else if r == 3 && c == 1 {
            Matrix3 { m00: self.m00, m01: self.m02, m02: self.m03, m10: self.m10, m11: self.m12, m12: self.m13, m20: self.m20, m21: self.m22, m22: self.m23 }
        } else if r == 3 && c == 2 {
            Matrix3 { m00: self.m00, m01: self.m01, m02: self.m03, m10: self.m10, m11: self.m11, m12: self.m13, m20: self.m20, m21: self.m21, m22: self.m23 }
        } else {
            Matrix3 { m00: self.m00, m01: self.m01, m02: self.m02, m10: self.m10, m11: self.m11, m12: self.m12, m20: self.m20, m21: self.m21, m22: self.m22 }
        }
    }

    /// The minor at `(r, c)`: the determinant of the submatrix.
    pub open spec fn minor_spec(self, r: int, c: int) -> int {
        self.submatrix_spec(r, c).det_spec()
    }

    /// The cofactor at `(r, c)`: the minor, negated when `r + c` is odd.
    pub open spec fn cofactor_spec(self, r: int, c: int) -> int {
        if (r + c) % 2 == 0 {
            self.minor_spec(r, c)
        } else {
            -self.minor_spec(r, c)
        }
    }

    /// The cofactor at `(r, c)` and its negation stay in the scalar range.
    pub open spec fn cofactor_fits(self, r: int, c: int) -> bool {
        &&& self.submatrix_spec(r, c).det_fits()
        &&& in_i64(-self.minor_spec(r, c))
    }

    /// The rounded determinant: cofactor expansion along the first row.
    pub open spec fn det_spec(self) -> int {
        fmul(self.m00 as int, self.cofactor_spec(0, 0)) + fmul(
            self.m01 as int,
            self.cofactor_spec(0, 1),
        ) + fmul(self.m02 as int, self.cofactor_spec(0, 2)) + fmul(
            self.m03 as int,
            self.cofactor_spec(0, 3),
        )
    }

    /// Every intermediate value of the determinant stays in the scalar
    /// range.
    pub open spec fn det_fits(self) -> bool {
        &&& self.cofactor_fits(0, 0)
        &&& self.cofactor_fits(0, 1)
        &&& self.cofactor_fits(0, 2)
        &&& self.cofactor_fits(0, 3)
        &&& in_i64(fmul(self.m00 as int, self.cofactor_spec(0, 0)))
        &&& in_i64(fmul(self.m01 as int, self.cofactor_spec(0, 1)))
        &&& in_i64(fmul(self.m02 as int, self.cofactor_spec(0, 2)))
        &&& in_i64(fmul(self.m03 as int, self.cofactor_spec(0, 3)))
        &&& in_i64(self.det_spec())
    }

    /// The magnitude of the determinant exceeds the comparison epsilon.
    pub open spec fn invertible_spec(self) -> bool {
        self.det_spec() > crate::EPSILON_STEPS || self.det_spec() < -(crate::EPSILON_STEPS as int)
    }

    /// Entry `(i, j)` of the rounded matrix product `a * b`.
    pub open spec fn mul_entry(a: Matrix4, b: Matrix4, i: int, j: int) -> int {
        fmul(a.entry(i, 0), b.entry(0, j)) + fmul(a.entry(i, 1), b.entry(1, j)) + fmul(
            a.entry(i, 2),
            b.entry(2, j),
        ) + fmul(a.entry(i, 3), b.entry(3, j))
    }

    /// The rounded matrix product.
    pub open spec fn mul_spec(a: Matrix4, b: Matrix4) -> Matrix4 {
        Matrix4 {
            m00: Matrix4::mul_entry(a, b, 0, 0) as i64,
            m01: Matrix4::mul_entry(a, b, 0, 1) as i64,
            m02: Matrix4::mul_entry(a, b, 0, 2) as i64,
            m03: Matrix4::mul_entry(a, b, 0, 3) as i64,
            m10: Matrix4::mul_entry(a, b, 1, 0) as i64,
            m11: Matrix4::mul_entry(a, b, 1, 1) as i64,
            m12: Matrix4::mul_entry(a, b, 1, 2) as i64,
            m13: Matrix4::mul_entry(a, b, 1, 3) as i64,
            m20: Matrix4::mul_entry(a, b, 2, 0) as i64,
            m21: Matrix4::mul_entry(a, b, 2, 1) as i64,
            m22: Matrix4::mul_entry(a, b, 2, 2) as i64,
            m23: Matrix4::mul_entry(a, b, 2, 3) as i64,
            m30: Matrix4::mul_entry(a, b, 3, 0) as i64,
            m31: Matrix4::mul_entry(a, b, 3, 1) as i64,
            m32: Matrix4::mul_entry(a, b, 3, 2) as i64,
            m33: Matrix4::mul_entry(a, b, 3, 3) as i64,
        }
    }

    /// Every rounded product feeding entry `(i, j)` of `a * b`, and the
    /// entry itself, stays in the scalar range.
    pub open spec fn mul_entry_fits(a: Matrix4, b: Matrix4, i: int, j: int) -> bool {
        &&& in_i64(fmul(a.entry(i, 0), b.entry(0, j)))
        &&& in_i64(fmul(a.entry(i, 1), b.entry(1, j)))
        &&& in_i64(fmul(a.entry(i, 2), b.entry(2, j)))
        &&& in_i64(fmul(a.entry(i, 3), b.entry(3, j)))
        &&& in_i64(Matrix4::mul_entry(a, b, i, j))
    }

    /// Every entry of `a * b` stays in the scalar range.
    pub open spec fn mul_fits(a: Matrix4, b: Matrix4) -> bool {
        &&& Matrix4::mul_entry_fits(a, b, 0, 0)
        &&& Matrix4::mul_entry_fits(a, b, 0, 1)
        &&& Matrix4::mul_entry_fits(a, b, 0, 2)
        &&& Matrix4::mul_entry_fits(a, b, 0, 3)
        &&& Matrix4::mul_entry_fits(a, b, 1, 0)
        &&& Matrix4::mul_entry_fits(a, b, 1, 1)
        &&& Matrix4::mul_entry_fits(a, b, 1, 2)
        &&& Matrix4::mul_entry_fits(a, b, 1, 3)
        &&& Matrix4::mul_entry_fits(a, b, 2, 0)
        &&& Matrix4::mul_entry_fits(a, b, 2, 1)
        &&& Matrix4::mul_entry_fits(a, b, 2, 2)
        &&& Matrix4::mul_entry_fits(a, b, 2, 3)
        &&& Matrix4::mul_entry_fits(a, b, 3, 0)
        &&& Matrix4::mul_entry_fits(a, b, 3, 1)
        &&& Matrix4::mul_entry_fits(a, b, 3, 2)
        &&& Matrix4::mul_entry_fits(a, b, 3, 3)
    }

    /// Component `i` of the rounded matrix-tuple product `a * v`.
    pub open spec fn mul_vec_entry(a: Matrix4, v: Tuple, i: int) -> int {
        fmul(a.entry(i, 0), v.x as int) + fmul(a.entry(i, 1), v.y as int) + fmul(
            a.entry(i, 2),
            v.z as int,
        ) + fmul(a.entry(i, 3), v.w as int)
    }

    /// The rounded matrix-tuple product.
    pub open spec fn mul_vec_spec(a: Matrix4, v: Tuple) -> Tuple {
        Tuple {
            x: Matrix4::mul_vec_entry(a, v, 0) as i64,
            y: Matrix4::mul_vec_entry(a, v, 1) as i64,
            z: Matrix4::mul_vec_entry(a, v, 2) as i64,
            w: Matrix4::mul_vec_entry(a, v, 3) as i64,
        }
    }

    /// Every rounded product feeding component `i` of `a * v`, and the
    /// component itself, stays in the scalar range.
    pub open spec fn mul_vec_entry_fits(a: Matrix4, v: Tuple, i: int) -> bool {
        &&& in_i64(fmul(a.entry(i, 0), v.x as int))
        &&& in_i64(fmul(a.entry(i, 1), v.y as int))
        &&& in_i64(fmul(a.entry(i, 2), v.z as int))
        &&& in_i64(fmul(a.entry(i, 3), v.w as int))
        &&& in_i64(Matrix4::mul_vec_entry(a, v, i))
    }

    /// Every component of `a * v` stays in the scalar range.
    pub open spec fn mul_vec_fits(a: Matrix4, v: Tuple) -> bool {
        &&& Matrix4::mul_vec_entry_fits(a, v, 0)
        &&& Matrix4::mul_vec_entry_fits(a, v, 1)
        &&& Matrix4::mul_vec_entry_fits(a, v, 2)
        &&& Matrix4::mul_vec_entry_fits(a, v, 3)
    }

    /// Every cofactor of the matrix, and every entry of the inverse, stays
    /// in the scalar range.
    pub open spec fn inverse_fits(self) -> bool {
        &&& self.det_fits()
        &&& self.invertible_spec() ==> {
            &&& self.cofactor_fits(0, 0)
            &&& self.cofactor_fits(0, 1)
            &&& self.cofactor_fits(0, 2)
            &&& self.cofactor_fits(0, 3)
            &&& self.cofactor_fits(1, 0)
            &&& self.cofactor_fits(1, 1)
            &&& self.cofactor_fits(1, 2)
            &&& self.cofactor_fits(1, 3)
            &&& self.cofactor_fits(2, 0)
            &&& self.cofactor_fits(2, 1)
            &&& self.cofactor_fits(2, 2)
            &&& self.cofactor_fits(2, 3)
            &&& self.cofactor_fits(3, 0)
            &&& self.cofactor_fits(3, 1)
            &&& self.cofactor_fits(3, 2)
            &&& self.cofactor_fits(3, 3)
            &&& in_i64(fdiv(self.cofactor_spec(0, 0), self.det_spec()))
            &&& in_i64(fdiv(self.cofactor_spec(0, 1), self.det_spec()))
            &&& in_i64(fdiv(self.cofactor_spec(0, 2), self.det_spec()))
            &&& in_i64(fdiv(self.cofactor_spec(0, 3), self.det_spec()))
            &&& in_i64(fdiv(self.cofactor_spec(1, 0), self.det_spec()))
            &&& in_i64(fdiv(self.cofactor_spec(1, 1), self.det_spec()))
            &&& in_i64(fdiv(self.cofactor_spec(1, 2), self.det_spec()))
            &&& in_i64(fdiv(self.cofactor_spec(1, 3), self.det_spec()))
            &&& in_i64(fdiv(self.cofactor_spec(2, 0), self.det_spec()))
            &&& in_i64(fdiv(self.cofactor_spec(2, 1), self.det_spec()))
            &&& in_i64(fdiv(self.cofactor_spec(2, 2), self.det_spec()))
            &&& in_i64(fdiv(self.cofactor_spec(2, 3), self.det_spec()))
            &&& in_i64(fdiv(self.cofactor_spec(3, 0), self.det_spec()))
            &&& in_i64(fdiv(self.cofactor_spec(3, 1), self.det_spec()))
            &&& in_i64(fdiv(self.cofactor_spec(3, 2), self.det_spec()))
            &&& in_i64(fdiv(self.cofactor_spec(3, 3), self.det_spec()))
        }
    }

    /// The inverse as a value: the transposed cofactor matrix divided by
    /// the determinant.  Meaningful when the matrix is invertible.
    pub open spec fn inverse_spec(self) -> Matrix4 {
        Matrix4 {
            m00: fdiv(self.cofactor_spec(0, 0), self.det_spec()) as i64,
            m01: fdiv(self.cofactor_spec(1, 0), self.det_spec()) as i64,
            m02: fdiv(self.cofactor_spec(2, 0), self.det_spec()) as i64,
            m03: fdiv(self.cofactor_spec(3, 0), self.det_spec()) as i64,
            m10: fdiv(self.cofactor_spec(0, 1), self.det_spec()) as i64,
            m11: fdiv(self.cofactor_spec(1, 1), self.det_spec()) as i64,
            m12: fdiv(self.cofactor_spec(2, 1), self.det_spec()) as i64,
            m13: fdiv(self.cofactor_spec(3, 1), self.det_spec()) as i64,
            m20: fdiv(self.cofactor_spec(0, 2), self.det_spec()) as i64,
            m21: fdiv(self.cofactor_spec(1, 2), self.det_spec()) as i64,
            m22: fdiv(self.cofactor_spec(2, 2), self.det_spec()) as i64,
            m23: fdiv(self.cofactor_spec(3, 2), self.det_spec()) as i64,
            m30: fdiv(self.cofactor_spec(0, 3), self.det_spec()) as i64,
            m31: fdiv(self.cofactor_spec(1, 3), self.det_spec()) as i64,
            m32: fdiv(self.cofactor_spec(2, 3), self.det_spec()) as i64,
            m33: fdiv(self.cofactor_spec(3, 3), self.det_spec()) as i64,
        }
    }

    /// The all-zero matrix as a value.
    pub open spec fn zero_spec() -> Matrix4 {
        Matrix4 {
            m00: 0i64,
            m01: 0i64,
            m02: 0i64,
            m03: 0i64,
            m10: 0i64,
            m11: 0i64,
            m12: 0i64,
            m13: 0i64,
            m20: 0i64,
            m21: 0i64,
            m22: 0i64,
            m23: 0i64,
            m30: 0i64,
            m31: 0i64,
            m32: 0i64,
            m33: 0i64,
        }
    }

    /// The multiplicative identity as a value.
    pub open spec fn identity_spec() -> Matrix4 {
        Matrix4 {
            m00: crate::UNIT,
            m01: 0i64,
            m02: 0i64,
            m03: 0i64,
            m10: 0i64,
            m11: crate::UNIT,
            m12: 0i64,
            m13: 0i64,
            m20: 0i64,
            m21: 0i64,
            m22: crate::UNIT,
            m23: 0i64,
            m30: 0i64,
            m31: 0i64,
            m32: 0i64,
            m33: crate::UNIT,
        }
    }

    /// The all-zero matrix.
    pub fn zero() -> (r: Matrix4)
        ensures
            r == Matrix4::zero_spec(),
    {
        Matrix4 {
            m00: 0,
            m01: 0,
            m02: 0,
            m03: 0,
            m10: 0,
            m11: 0,
            m12: 0,
            m13: 0,
            m20: 0,
            m21: 0,
            m22: 0,
            m23: 0,
            m30: 0,
            m31: 0,
            m32: 0,
            m33: 0,
        }
    }

    /// The all-zero matrix.
    pub fn new() -> (r: Matrix4)
        ensures
            r == Matrix4::zero_spec(),
    {
        Matrix4::zero()
    }

    /// The multiplicative identity: 1.0 on the diagonal.
    pub fn identity() -> (r: Matrix4)
        ensures
            r == Matrix4::identity_spec(),
    {
        Matrix4 {
            m00: crate::UNIT,
            m01: 0,
            m02: 0,
            m03: 0,
            m10: 0,
            m11: crate::UNIT,
            m12: 0,
            m13: 0,
            m20: 0,
            m21: 0,
            m22: crate::UNIT,
            m23: 0,
            m30: 0,
            m31: 0,
            m32: 0,
            m33: crate::UNIT,
        }
    }

    /// Builds the matrix from four tuples taken as columns: column `j`
    /// holds the components of the `j`-th tuple.
    pub fn from_tuples(t1: Tuple, t2: Tuple, t3: Tuple, t4: Tuple) -> (r: Matrix4)
        ensures
            r.m00 == t1.x,
            r.m01 == t2.x,
            r.m02 == t3.x,
            r.m03 == t4.x,
            r.m10 == t1.y,
            r.m11 == t2.y,
            r.m12 == t3.y,
            r.m13 == t4.y,
            r.m20 == t1.z,
            r.m21 == t2.z,
            r.m22 == t3.z,
            r.m23 == t4.z,
            r.m30 == t1.w,
            r.m31 == t2.w,
            r.m32 == t3.w,
            r.m33 == t4.w,
    {
        Matrix4 {
            m00: t1.x,
            m01: t2.x,
            m02: t3.x,
            m03: t4.x,
            m10: t1.y,
            m11: t2.y,
            m12: t3.y,
            m13: t4.y,
            m20: t1.z,
            m21: t2.z,
            m22: t3.z,
            m23: t4.z,
            m30: t1.w,
            m31: t2.w,
            m32: t3.w,
            m33: t4.w,
        }
    }

    /// Builds the matrix from four tuples taken as rows: row `i` holds
    /// the components of the `i`-th tuple.
    pub fn from_tuples_by_row(t1: Tuple, t2: Tuple, t3: Tuple, t4: Tuple) -> (r: Matrix4)
        ensures
            r.m00 == t1.x,
            r.m01 == t1.y,
            r.m02 == t1.z,
            r.m03 == t1.w,
            r.m10 == t2.x,
            r.m11 == t2.y,
            r.m12 == t2.z,
            r.m13 == t2.w,
            r.m20 == t3.x,
            r.m21 == t3.y,
            r.m22 == t3.z,
            r.m23 == t3.w,
            r.m30 == t4.x,
            r.m31 == t4.y,
            r.m32 == t4.z,
            r.m33 == t4.w,
    {
        Matrix4 {
            m00: t1.x,
            m01: t1.y,
            m02: t1.z,
            m03: t1.w,
            m10: t2.x,
            m11: t2.y,
            m12: t2.z,
            m13: t2.w,
            m20: t3.x,
            m21: t3.y,
            m22: t3.z,
            m23: t3.w,
            m30: t4.x,
            m31: t4.y,
            m32: t4.z,
            m33: t4.w,
        }
    }

    /// Builds the matrix from sixteen entries in row-major order.
    pub fn from_array(arr: [i64; 16]) -> (r: Matrix4)
        ensures
            r.m00 == arr[0],
            r.m01 == arr[1],
            r.m02 == arr[2],
            r.m03 == arr[3],
            r.m10 == arr[4],
            r.m11 == arr[5],
            r.m12 == arr[6],
            r.m13 == arr[7],
            r.m20 == arr[8],
            r.m21 == arr[9],
            r.m22 == arr[10],
            r.m23 == arr[11],
            r.m30 == arr[12],
            r.m31 == arr[13],
            r.m32 == arr[14],
            r.m33 == arr[15],
    {
        Matrix4 {
            m00: arr[0],
            m01: arr[1],
            m02: arr[2],
            m03: arr[3],
            m10: arr[4],
            m11: arr[5],
            m12: arr[6],
            m13: arr[7],
            m20: arr[8],
            m21: arr[9],
            m22: arr[10],
            m23: arr[11],
            m30: arr[12],
            m31: arr[13],
            m32: arr[14],
            m33: arr[15],
        }
    }

    /// Builds the matrix from sixteen entries in column-major order.
    pub fn from_array_by_col(arr: [i64; 16]) -> (r: Matrix4)
        ensures
            r.m00 == arr[0],
            r.m01 == arr[4],
            r.m02 == arr[8],
            r.m03 == arr[12],
            r.m10 == arr[1],
            r.m11 == arr[5],
            r.m12 == arr[9],
            r.m13 == arr[13],
            r.m20 == arr[2],
            r.m21 == arr[6],
            r.m22 == arr[10],
            r.m23 == arr[14],
            r.m30 == arr[3],
            r.m31 == arr[7],
            r.m32 == arr[11],
            r.m33 == arr[15],
    {
        Matrix4 {
            m00: arr[0],
            m01: arr[4],
            m02: arr[8],
            m03: arr[12],
            m10: arr[1],
            m11: arr[5],
            m12: arr[9],
            m13: arr[13],
            m20: arr[2],
            m21: arr[6],
            m22: arr[10],
            m23: arr[14],
            m30: arr[3],
            m31: arr[7],
            m32: arr[11],
            m33: arr[15],
        }
    }

    /// The entry at `(row, col)`, or `None` when either index is out of
    /// range.
    pub fn get(&self, row: usize, col: usize) -> (r: Option<i64>)
        ensures
            r == if row < 4 && col < 4 {
                Some(self.entry(row as int, col as int) as i64)
            } else {
                Option::<i64>::None
            },
    {
        if row >= 4 || col >= 4 {
            return None;
        }
        let idx: usize = row * 4 + col;
        if idx == 0 {
            Some(self.m00)
        } else if idx == 1 {
            Some(self.m01)
        } else if idx == 2 {
            Some(self.m02)
        } else if idx == 3 {
            Some(self.m03)
        } else if idx == 4 {
            Some(self.m10)
        } else if idx == 5 {
            Some(self.m11)
        } else if idx == 6 {
            Some(self.m12)
        } else if idx == 7 {
            Some(self.m13)
        } else if idx == 8 {
            Some(self.m20)
        } else if idx == 9 {
            Some(self.m21)
        } else if idx == 10 {
            Some(self.m22)
        } else if idx == 11 {
            Some(self.m23)
        } else if idx == 12 {
            Some(self.m30)
        } else if idx == 13 {
            Some(self.m31)
        } else if idx == 14 {
            Some(self.m32)
        } else {
            Some(self.m33)
        }
    }

    /// Overwrites the entry at `(row, col)`, or reports `OutOfBounds` and
    /// leaves the matrix unchanged when either index is out of range.
    pub fn set(&mut self, row: usize, col: usize, val: i64) -> (r: Result<(), Matrix4Error>)
        ensures
            r is Ok <==> row < 4 && col < 4,
            row < 4 && col < 4 ==> *final(self) == old(self).set_spec(
                row as int,
                col as int,
                val,
            ),
            !(row < 4 && col < 4) ==> *final(self) == *old(self),
    {
        if row >= 4 || col >= 4 {
            return Err(Matrix4Error::OutOfBounds);
        }
        let idx: usize = row * 4 + col;
        if idx == 0 {
            self.m00 = val;
        } else if idx == 1 {
            self.m01 = val;
        } else if idx == 2 {
            self.m02 = val;
        } else if idx == 3 {
            self.m03 = val;
        } else if idx == 4 {
            self.m10 = val;
        } else if idx == 5 {
            self.m11 = val;
        } else if idx == 6 {
            self.m12 = val;
        } else if idx == 7 {
            self.m13 = val;
        } else if idx == 8 {
            self.m20 = val;
        } else if idx == 9 {
            self.m21 = val;
        } else if idx == 10 {
            self.m22 = val;
        } else if idx == 11 {
            self.m23 = val;
        } else if idx == 12 {
            self.m30 = val;
        } else if idx == 13 {
            self.m31 = val;
        } else if idx == 14 {
            self.m32 = val;
        } else {
            self.m33 = val;
        }
        Ok(())
    }

    /// Entry-wise sum of two matrices.
    pub fn add(matrix_a: &Matrix4, matrix_b: &Matrix4) -> (r: Matrix4)
        requires
            in_i64(matrix_a.m00 + matrix_b.m00),
            in_i64(matrix_a.m01 + matrix_b.m01),
            in_i64(matrix_a.m02 + matrix_b.m02),
            in_i64(matrix_a.m03 + matrix_b.m03),
            in_i64(matrix_a.m10 + matrix_b.m10),
            in_i64(matrix_a.m11 + matrix_b.m11),
            in_i64(matrix_a.m12 + matrix_b.m12),
            in_i64(matrix_a.m13 + matrix_b.m13),
            in_i64(matrix_a.m20 + matrix_b.m20),
            in_i64(matrix_a.m21 + matrix_b.m21),
            in_i64(matrix_a.m22 + matrix_b.m22),
            in_i64(matrix_a.m23 + matrix_b.m23),
            in_i64(matrix_a.m30 + matrix_b.m30),
            in_i64(matrix_a.m31 + matrix_b.m31),
            in_i64(matrix_a.m32 + matrix_b.m32),
            in_i64(matrix_a.m33 + matrix_b.m33),
        ensures
            r.m00 == matrix_a.m00 + matrix_b.m00,
            r.m01 == matrix_a.m01 + matrix_b.m01,
            r.m02 == matrix_a.m02 + matrix_b.m02,
            r.m03 == matrix_a.m03 + matrix_b.m03,
            r.m10 == matrix_a.m10 + matrix_b.m10,
            r.m11 == matrix_a.m11 + matrix_b.m11,
            r.m12 == matrix_a.m12 + matrix_b.m12,
            r.m13 == matrix_a.m13 + matrix_b.m13,
            r.m20 == matrix_a.m20 + matrix_b.m20,
            r.m21 == matrix_a.m21 + matrix_b.m21,
            r.m22 == matrix_a.m22 + matrix_b.m22,
            r.m23 == matrix_a.m23 + matrix_b.m23,
            r.m30 == matrix_a.m30 + matrix_b.m30,
            r.m31 == matrix_a.m31 + matrix_b.m31,
            r.m32 == matrix_a.m32 + matrix_b.m32,
            r.m33 == matrix_a.m33 + matrix_b.m33,
    {
        Matrix4 {
            m00: matrix_a.m00 + matrix_b.m00,
            m01: matrix_a.m01 + matrix_b.m01,
            m02: matrix_a.m02 + matrix_b.m02,
            m03: matrix_a.m03 + matrix_b.m03,
            m10: matrix_a.m10 + matrix_b.m10,
            m11: matrix_a.m11 + matrix_b.m11,
            m12: matrix_a.m12 + matrix_b.m12,
            m13: matrix_a.m13 + matrix_b.m13,
            m20: matrix_a.m20 + matrix_b.m20,
            m21: matrix_a.m21 + matrix_b.m21,
            m22: matrix_a.m22 + matrix_b.m22,
            m23: matrix_a.m23 + matrix_b.m23,
            m30: matrix_a.m30 + matrix_b.m30,
            m31: matrix_a.m31 + matrix_b.m31,
            m32: matrix_a.m32 + matrix_b.m32,
            m33: matrix_a.m33 + matrix_b.m33,
        }
    }

    /// Entry-wise difference of two matrices.
    pub fn sub(matrix_a: &Matrix4, matrix_b: &Matrix4) -> (r: Matrix4)
        requires
            in_i64(matrix_a.m00 - matrix_b.m00),
            in_i64(matrix_a.m01 - matrix_b.m01),
            in_i64(matrix_a.m02 - matrix_b.m02),
            in_i64(matrix_a.m03 - matrix_b.m03),
            in_i64(matrix_a.m10 - matrix_b.m10),
            in_i64(matrix_a.m11 - matrix_b.m11),
            in_i64(matrix_a.m12 - matrix_b.m12),
            in_i64(matrix_a.m13 - matrix_b.m13),
            in_i64(matrix_a.m20 - matrix_b.m20),
            in_i64(matrix_a.m21 - matrix_b.m21),
            in_i64(matrix_a.m22 - matrix_b.m22),
            in_i64(matrix_a.m23 - matrix_b.m23),
            in_i64(matrix_a.m30 - matrix_b.m30),
            in_i64(matrix_a.m31 - matrix_b.m31),
            in_i64(matrix_a.m32 - matrix_b.m32),
            in_i64(matrix_a.m33 - matrix_b.m33),
        ensures
            r.m00 == matrix_a.m00 - matrix_b.m00,
            r.m01 == matrix_a.m01 - matrix_b.m01,
            r.m02 == matrix_a.m02 - matrix_b.m02,
            r.m03 == matrix_a.m03 - matrix_b.m03,
            r.m10 == matrix_a.m10 - matrix_b.m10,
            r.m11 == matrix_a.m11 - matrix_b.m11,
            r.m12 == matrix_a.m12 - matrix_b.m12,
            r.m13 == matrix_a.m13 - matrix_b.m13,
            r.m20 == matrix_a.m20 - matrix_b.m20,
            r.m21 == matrix_a.m21 - matrix_b.m21,
            r.m22 == matrix_a.m22 - matrix_b.m22,
            r.m23 == matrix_a.m23 - matrix_b.m23,
            r.m30 == matrix_a.m30 - matrix_b.m30,
            r.m31 == matrix_a.m31 - matrix_b.m31,
            r.m32 == matrix_a.m32 - matrix_b.m32,
            r.m33 == matrix_a.m33 - matrix_b.m33,
    {
        Matrix4 {
            m00: matrix_a.m00 - matrix_b.m00,
            m01: matrix_a.m01 - matrix_b.m01,
            m02: matrix_a.m02 - matrix_b.m02,
            m03: matrix_a.m03 - matrix_b.m03,
            m10: matrix_a.m10 - matrix_b.m10,
            m11: matrix_a.m11 - matrix_b.m11,
            m12: matrix_a.m12 - matrix_b.m12,
            m13: matrix_a.m13 - matrix_b.m13,
            m20: matrix_a.m20 - matrix_b.m20,
            m21: matrix_a.m21 - matrix_b.m21,
            m22: matrix_a.m22 - matrix_b.m22,
            m23: matrix_a.m23 - matrix_b.m23,
            m30: matrix_a.m30 - matrix_b.m30,
            m31: matrix_a.m31 - matrix_b.m31,
            m32: matrix_a.m32 - matrix_b.m32,
            m33: matrix_a.m33 - matrix_b.m33,
        }
    }

    /// Matrix product: each entry is the rounded dot product of a row of
    /// `matrix_a` with a column of `matrix_b`.
    pub fn mult_mat(matrix_a: &Matrix4, matrix_b: &Matrix4) -> (r: Matrix4)
        requires
            Matrix4::mul_fits(*matrix_a, *matrix_b),
        ensures
            r == Matrix4::mul_spec(*matrix_a, *matrix_b),
    {
        let a = matrix_a;
        let b = matrix_b;
        let e00: i128 = fixed_mul(a.m00, b.m00) as i128 + fixed_mul(a.m01, b.m10) as i128 + fixed_mul(a.m02, b.m20) as i128 + fixed_mul(a.m03, b.m30) as i128;
        let e01: i128 = fixed_mul(a.m00, b.m01) as i128 + fixed_mul(a.m01, b.m11) as i128 + fixed_mul(a.m02, b.m21) as i128 + fixed_mul(a.m03, b.m31) as i128;
        let e02: i128 = fixed_mul(a.m00, b.m02) as i128 + fixed_mul(a.m01, b.m12) as i128 + fixed_mul(a.m02, b.m22) as i128 + fixed_mul(a.m03, b.m32) as i128;
        let e03: i128 = fixed_mul(a.m00, b.m03) as i128 + fixed_mul(a.m01, b.m13) as i128 + fixed_mul(a.m02, b.m23) as i128 + fixed_mul(a.m03, b.m33) as i128;
        let e10: i128 = fixed_mul(a.m10, b.m00) as i128 + fixed_mul(a.m11, b.m10) as i128 + fixed_mul(a.m12, b.m20) as i128 + fixed_mul(a.m13, b.m30) as i128;
        let e11: i128 = fixed_mul(a.m10, b.m01) as i128 + fixed_mul(a.m11, b.m11) as i128 + fixed_mul(a.m12, b.m21) as i128 + fixed_mul(a.m13, b.m31) as i128;
        let e12: i128 = fixed_mul(a.m10, b.m02) as i128 + fixed_mul(a.m11, b.m12) as i128 + fixed_mul(a.m12, b.m22) as i128 + fixed_mul(a.m13, b.m32) as i128;
        let e13: i128 = fixed_mul(a.m10, b.m03) as i128 + fixed_mul(a.m11, b.m13) as i128 + fixed_mul(a.m12, b.m23) as i128 + fixed_mul(a.m13, b.m33) as i128;
        let e20: i128 = fixed_mul(a.m20, b.m00) as i128 + fixed_mul(a.m21, b.m10) as i128 + fixed_mul(a.m22, b.m20) as i128 + fixed_mul(a.m23, b.m30) as i128;
        let e21: i128 = fixed_mul(a.m20, b.m01) as i128 + fixed_mul(a.m21, b.m11) as i128 + fixed_mul(a.m22, b.m21) as i128 + fixed_mul(a.m23, b.m31) as i128;
        let e22: i128 = fixed_mul(a.m20, b.m02) as i128 + fixed_mul(a.m21, b.m12) as i128 + fixed_mul(a.m22, b.m22) as i128 + fixed_mul(a.m23, b.m32) as i128;
        let e23: i128 = fixed_mul(a.m20, b.m03) as i128 + fixed_mul(a.m21, b.m13) as i128 + fixed_mul(a.m22, b.m23) as i128 + fixed_mul(a.m23, b.m33) as i128;
        let e30: i128 = fixed_mul(a.m30, b.m00) as i128 + fixed_mul(a.m31, b.m10) as i128 + fixed_mul(a.m32, b.m20) as i128 + fixed_mul(a.m33, b.m30) as i128;
        let e31: i128 = fixed_mul(a.m30, b.m01) as i128 + fixed_mul(a.m31, b.m11) as i128 + fixed_mul(a.m32, b.m21) as i128 + fixed_mul(a.m33, b.m31) as i128;
        let e32: i128 = fixed_mul(a.m30, b.m02) as i128 + fixed_mul(a.m31, b.m12) as i128 + fixed_mul(a.m32, b.m22) as i128 + fixed_mul(a.m33, b.m32) as i128;
        let e33: i128 = fixed_mul(a.m30, b.m03) as i128 + fixed_mul(a.m31, b.m13) as i128 + fixed_mul(a.m32, b.m23) as i128 + fixed_mul(a.m33, b.m33) as i128;
        Matrix4 {
            m00: e00 as i64,
            m01: e01 as i64,
            m02: e02 as i64,
            m03: e03 as i64,
            m10: e10 as i64,
            m11: e11 as i64,
            m12: e12 as i64,
            m13: e13 as i64,
            m20: e20 as i64,
            m21: e21 as i64,
            m22: e22 as i64,
            m23: e23 as i64,
            m30: e30 as i64,
            m31: e31 as i64,
            m32: e32 as i64,
            m33: e33 as i64,
        }
    }

    /// Matrix-tuple product: each component is the rounded dot product of
    /// a row of `matrix_a` with the tuple.
    pub fn mult_vec(matrix_a: &Matrix4, vec_b: &Tuple) -> (r: Tuple)
        requires
            Matrix4::mul_vec_fits(*matrix_a, *vec_b),
        ensures
            r == Matrix4::mul_vec_spec(*matrix_a, *vec_b),
    {
        let a = matrix_a;
        let v = vec_b;
        let e0: i128 = fixed_mul(a.m00, v.x) as i128 + fixed_mul(a.m01, v.y) as i128 + fixed_mul(a.m02, v.z) as i128 + fixed_mul(a.m03, v.w) as i128;
        let e1: i128 = fixed_mul(a.m10, v.x) as i128 + fixed_mul(a.m11, v.y) as i128 + fixed_mul(a.m12, v.z) as i128 + fixed_mul(a.m13, v.w) as i128;
        let e2: i128 = fixed_mul(a.m20, v.x) as i128 + fixed_mul(a.m21, v.y) as i128 + fixed_mul(a.m22, v.z) as i128 + fixed_mul(a.m23, v.w) as i128;
        let e3: i128 = fixed_mul(a.m30, v.x) as i128 + fixed_mul(a.m31, v.y) as i128 + fixed_mul(a.m32, v.z) as i128 + fixed_mul(a.m33, v.w) as i128;
        Tuple { x: e0 as i64, y: e1 as i64, z: e2 as i64, w: e3 as i64 }
    }

    /// Scales every entry by `scal`, rounding each product to the grid.
    pub fn mult_scal(matrix_a: &Matrix4, scal: i64) -> (r: Matrix4)
        requires
            in_i64(fmul(matrix_a.m00 as int, scal as int)),
            in_i64(fmul(matrix_a.m01 as int, scal as int)),
            in_i64(fmul(matrix_a.m02 as int, scal as int)),
            in_i64(fmul(matrix_a.m03 as int, scal as int)),
            in_i64(fmul(matrix_a.m10 as int, scal as int)),
            in_i64(fmul(matrix_a.m11 as int, scal as int)),
            in_i64(fmul(matrix_a.m12 as int, scal as int)),
            in_i64(fmul(matrix_a.m13 as int, scal as int)),
            in_i64(fmul(matrix_a.m20 as int, scal as int)),
            in_i64(fmul(matrix_a.m21 as int, scal as int)),
            in_i64(fmul(matrix_a.m22 as int, scal as int)),
            in_i64(fmul(matrix_a.m23 as int, scal as int)),
            in_i64(fmul(matrix_a.m30 as int, scal as int)),
            in_i64(fmul(matrix_a.m31 as int, scal as int)),
            in_i64(fmul(matrix_a.m32 as int, scal as int)),
            in_i64(fmul(matrix_a.m33 as int, scal as int)),
        ensures
            r.m00 == fmul(matrix_a.m00 as int, scal as int),
            r.m01 == fmul(matrix_a.m01 as int, scal as int),
            r.m02 == fmul(matrix_a.m02 as int, scal as int),
            r.m03 == fmul(matrix_a.m03 as int, scal as int),
            r.m10 == fmul(matrix_a.m10 as int, scal as int),
            r.m11 == fmul(matrix_a.m11 as int, scal as int),
            r.m12 == fmul(matrix_a.m12 as int, scal as int),
            r.m13 == fmul(matrix_a.m13 as int, scal as int),
            r.m20 == fmul(matrix_a.m20 as int, scal as int),
            r.m21 == fmul(matrix_a.m21 as int, scal as int),
            r.m22 == fmul(matrix_a.m22 as int, scal as int),
            r.m23 == fmul(matrix_a.m23 as int, scal as int),
            r.m30 == fmul(matrix_a.m30 as int, scal as int),
            r.m31 == fmul(matrix_a.m31 as int, scal as int),
            r.m32 == fmul(matrix_a.m32 as int, scal as int),
            r.m33 == fmul(matrix_a.m33 as int, scal as int),
    {
        Matrix4 {
            m00: fixed_mul(matrix_a.m00, scal),
            m01: fixed_mul(matrix_a.m01, scal),
            m02: fixed_mul(matrix_a.m02, scal),
            m03: fixed_mul(matrix_a.m03, scal),
            m10: fixed_mul(matrix_a.m10, scal),
            m11: fixed_mul(matrix_a.m11, scal),
            m12: fixed_mul(matrix_a.m12, scal),
            m13: fixed_mul(matrix_a.m13, scal),
            m20: fixed_mul(matrix_a.m20, scal),
            m21: fixed_mul(matrix_a.m21, scal),
            m22: fixed_mul(matrix_a.m22, scal),
            m23: fixed_mul(matrix_a.m23, scal),
            m30: fixed_mul(matrix_a.m30, scal),
            m31: fixed_mul(matrix_a.m31, scal),
            m32: fixed_mul(matrix_a.m32, scal),
            m33: fixed_mul(matrix_a.m33, scal),
        }
    }

    /// Divides every entry by `scal` (`scal != 0`), rounding each quotient
    /// to the grid.
    pub fn div_scal(matrix_a: &Matrix4, scal: i64) -> (r: Matrix4)
        requires
            scal != 0,
            in_i64(fdiv(matrix_a.m00 as int, scal as int)),
            in_i64(fdiv(matrix_a.m01 as int, scal as int)),
            in_i64(fdiv(matrix_a.m02 as int, scal as int)),
            in_i64(fdiv(matrix_a.m03 as int, scal as int)),
            in_i64(fdiv(matrix_a.m10 as int, scal as int)),
            in_i64(fdiv(matrix_a.m11 as int, scal as int)),
            in_i64(fdiv(matrix_a.m12 as int, scal as int)),
            in_i64(fdiv(matrix_a.m13 as int, scal as int)),
            in_i64(fdiv(matrix_a.m20 as int, scal as int)),
            in_i64(fdiv(matrix_a.m21 as int, scal as int)),
            in_i64(fdiv(matrix_a.m22 as int, scal as int)),
            in_i64(fdiv(matrix_a.m23 as int, scal as int)),
            in_i64(fdiv(matrix_a.m30 as int, scal as int)),
            in_i64(fdiv(matrix_a.m31 as int, scal as int)),
            in_i64(fdiv(matrix_a.m32 as int, scal as int)),
            in_i64(fdiv(matrix_a.m33 as int, scal as int)),
        ensures
            r.m00 == fdiv(matrix_a.m00 as int, scal as int),
            r.m01 == fdiv(matrix_a.m01 as int, scal as int),
            r.m02 == fdiv(matrix_a.m02 as int, scal as int),
            r.m03 == fdiv(matrix_a.m03 as int, scal as int),
            r.m10 == fdiv(matrix_a.m10 as int, scal as int),
            r.m11 == fdiv(matrix_a.m11 as int, scal as int),
            r.m12 == fdiv(matrix_a.m12 as int, scal as int),
            r.m13 == fdiv(matrix_a.m13 as int, scal as int),
            r.m20 == fdiv(matrix_a.m20 as int, scal as int),
            r.m21 == fdiv(matrix_a.m21 as int, scal as int),
            r.m22 == fdiv(matrix_a.m22 as int, scal as int),
            r.m23 == fdiv(matrix_a.m23 as int, scal as int),
            r.m30 == fdiv(matrix_a.m30 as int, scal as int),
            r.m31 == fdiv(matrix_a.m31 as int, scal as int),
            r.m32 == fdiv(matrix_a.m32 as int, scal as int),
            r.m33 == fdiv(matrix_a.m33 as int, scal as int),
    {
        Matrix4 {
            m00: fixed_div(matrix_a.m00, scal),
            m01: fixed_div(matrix_a.m01, scal),
            m02: fixed_div(matrix_a.m02, scal),
            m03: fixed_div(matrix_a.m03, scal),
            m10: fixed_div(matrix_a.m10, scal),
            m11: fixed_div(matrix_a.m11, scal),
            m12: fixed_div(matrix_a.m12, scal),
            m13: fixed_div(matrix_a.m13, scal),
            m20: fixed_div(matrix_a.m20, scal),
            m21: fixed_div(matrix_a.m21, scal),
            m22: fixed_div(matrix_a.m22, scal),
            m23: fixed_div(matrix_a.m23, scal),
            m30: fixed_div(matrix_a.m30, scal),
            m31: fixed_div(matrix_a.m31, scal),
            m32: fixed_div(matrix_a.m32, scal),
            m33: fixed_div(matrix_a.m33, scal),
        }
    }

    /// Swaps rows and columns.
    pub fn transpose(&self) -> (r: Matrix4)
        ensures
            r == self.transpose_spec(),
    {
        Matrix4 {
            m00: self.m00,
            m01: self.m10,
            m02: self.m20,
            m03: self.m30,
            m10: self.m01,
            m11: self.m11,
            m12: self.m21,
            m13: self.m31,
            m20: self.m02,
            m21: self.m12,
            m22: self.m22,
            m23: self.m32,
            m30: self.m03,
            m31: self.m13,
            m32: self.m23,
            m33: self.m33,
        }
    }

    /// The 3x3 matrix left after deleting row `row` and column `col`.
    pub fn submatrix(&self, row: usize, col: usize) -> (r: Matrix3)
        requires
            row < 4,
            col < 4,
        ensures
            r == self.submatrix_spec(row as int, col as int),
    {
        let idx: usize = row * 4 + col;
        if idx == 0 {
            Matrix3 { m00: self.m11, m01: self.m12, m02: self.m13, m10: self.m21, m11: self.m22, m12: self.m23, m20: self.m31, m21: self.m32, m22: self.m33 }
        } else if idx == 1 {
            Matrix3 { m00: self.m10, m01: self.m12, m02: self.m13, m10: self.m20, m11: self.m22, m12: self.m23, m20: self.m30, m21: self.m32, m22: self.m33 }
        } else if idx == 2 {
            Matrix3 { m00: self.m10, m01: self.m11, m02: self.m13, m10: self.m20, m11: self.m21, m12: self.m23, m20: self.m30, m21: self.m31, m22: self.m33 }
        } else if idx == 3 {
            Matrix3 { m00: self.m10, m01: self.m11, m02: self.m12, m10: self.m20, m11: self.m21, m12: self.m22, m20: self.m30, m21: self.m31, m22: self.m32 }
        } else if idx == 4 {
            Matrix3 { m00: self.m01, m01: self.m02, m02: self.m03, m10: self.m21, m11: self.m22, m12: self.m23, m20: self.m31, m21: self.m32, m22: self.m33 }
        } else if idx == 5 {
            Matrix3 { m00: self.m00, m01: self.m02, m02: self.m03, m10: self.m20, m11: self.m22, m12: self.m23, m20: self.m30, m21: self.m32, m22: self.m33 }
        } else if idx == 6 {
            Matrix3 { m00: self.m00, m01: self.m01, m02: self.m03, m10: self.m20, m11: self.m21, m12: self.m23, m20: self.m30, m21: self.m31, m22: self.m33 }
        } else if idx == 7 {
            Matrix3 { m00: self.m00, m01: self.m01, m02: self.m02, m10: self.m20, m11: self.m21, m12: self.m22, m20: self.m30, m21: self.m31, m22: self.m32 }
        } else if idx == 8 {
            Matrix3 { m00: self.m01, m01: self.m02, m02: self.m03, m10: self.m11, m11: self.m12, m12: self.m13, m20: self.m31, m21: self.m32, m22: self.m33 }
        } else if idx == 9 {
            Matrix3 { m00: self.m00, m01: self.m02, m02: self.m03, m10: self.m10, m11: self.m12, m12: self.m13, m20: self.m30, m21: self.m32, m22: self.m33 }
        } else if idx == 10 {
            Matrix3 { m00: self.m00, m01: self.m01, m02: self.m03, m10: self.m10, m11: self.m11, m12: self.m13, m20: self.m30, m21: self.m31, m22: self.m33 }
        } else if idx == 11 {
            Matrix3 { m00: self.m00, m01: self.m01, m02: self.m02, m10: self.m10, m11: self.m11, m12: self.m12, m20: self.m30, m21: self.m31, m22: self.m32 }
        } else if idx == 12 {
            Matrix3 { m00: self.m01, m01: self.m02, m02: self.m03, m10: self.m11, m11: self.m12, m12: self.m13, m20: self.m21, m21: self.m22, m22: self.m23 }
        } else if idx == 13 {
            Matrix3 { m00: self.m00, m01: self.m02, m02: self.m03, m10: self.m10, m11: self.m12, m12: self.m13, m20: self.m20, m21: self.m22, m22: self.m23 }
        } else if idx == 14 {
            Matrix3 { m00: self.m00, m01: self.m01, m02: self.m03, m10: self.m10, m11: self.m11, m12: self.m13, m20: self.m20, m21: self.m21, m22: self.m23 }
        } else {
            Matrix3 { m00: self.m00, m01: self.m01, m02: self.m02, m10: self.m10, m11: self.m11, m12: self.m12, m20: self.m20, m21: self.m21, m22: self.m22 }
        }
    }

    /// The minor at `(row, col)`: the determinant of the submatrix.
    pub fn minor(&self, row: usize, col: usize) -> (r: i64)
        requires
            row < 4,
            col < 4,
            self.submatrix_spec(row as int, col as int).det_fits(),
        ensures
            r as int == self.minor_spec(row as int, col as int),
    {
        let submatrix: Matrix3 = self.submatrix(row, col);
        submatrix.det()
    }

    /// The cofactor at `(row, col)`: the minor, negated when `row + col`
    /// is odd.
    pub fn cofactor(&self, row: usize, col: usize) -> (r: i64)
        requires
            row < 4,
            col < 4,
            self.cofactor_fits(row as int, col as int),
        ensures
            r as int == self.cofactor_spec(row as int, col as int),
    {
        let minor: i64 = self.minor(row, col);
        if (row + col) % 2 == 0 {
            minor
        } else {
            -minor
        }
    }

    /// The rounded determinant: cofactor expansion along the first row.
    pub fn det(&self) -> (r: i64)
        requires
            self.det_fits(),
        ensures
            r as int == self.det_spec(),
    {
        let t0: i128 = fixed_mul(self.m00, self.cofactor(0, 0)) as i128;
        let t1: i128 = fixed_mul(self.m01, self.cofactor(0, 1)) as i128;
        let t2: i128 = fixed_mul(self.m02, self.cofactor(0, 2)) as i128;
        let t3: i128 = fixed_mul(self.m03, self.cofactor(0, 3)) as i128;
        (t0 + t1 + t2 + t3) as i64
    }

    /// Whether the determinant's magnitude exceeds the comparison epsilon.
    pub fn invertible(&self) -> (r: bool)
        requires
            self.det_fits(),
        ensures
            r == self.invertible_spec(),
    {
        let d: i64 = self.det();
        d > crate::EPSILON_STEPS || d < -crate::EPSILON_STEPS
    }

    /// The inverse: the transposed cofactor matrix divided by the
    /// determinant, or `None` when the matrix is not invertible.
    pub fn inverse(&self) -> (r: Option<Matrix4>)
        requires
            self.inverse_fits(),
        ensures
            r is Some <==> self.invertible_spec(),
            self.invertible_spec() ==> r == Some(self.inverse_spec()),
            self.invertible_spec() ==> {
                let inv = r->Some_0;
                &&& inv.m00 as int == fdiv(self.cofactor_spec(0, 0), self.det_spec())
                &&& inv.m01 as int == fdiv(self.cofactor_spec(1, 0), self.det_spec())
                &&& inv.m02 as int == fdiv(self.cofactor_spec(2, 0), self.det_spec())
                &&& inv.m03 as int == fdiv(self.cofactor_spec(3, 0), self.det_spec())
                &&& inv.m10 as int == fdiv(self.cofactor_spec(0, 1), self.det_spec())
                &&& inv.m11 as int == fdiv(self.cofactor_spec(1, 1), self.det_spec())
                &&& inv.m12 as int == fdiv(self.cofactor_spec(2, 1), self.det_spec())
                &&& inv.m13 as int == fdiv(self.cofactor_spec(3, 1), self.det_spec())
                &&& inv.m20 as int == fdiv(self.cofactor_spec(0, 2), self.det_spec())
                &&& inv.m21 as int == fdiv(self.cofactor_spec(1, 2), self.det_spec())
                &&& inv.m22 as int == fdiv(self.cofactor_spec(2, 2), self.det_spec())
                &&& inv.m23 as int == fdiv(self.cofactor_spec(3, 2), self.det_spec())
                &&& inv.m30 as int == fdiv(self.cofactor_spec(0, 3), self.det_spec())
                &&& inv.m31 as int == fdiv(self.cofactor_spec(1, 3), self.det_spec())
                &&& inv.m32 as int == fdiv(self.cofactor_spec(2, 3), self.det_spec())
                &&& inv.m33 as int == fdiv(self.cofactor_spec(3, 3), self.det_spec())
            },
    {
        if !self.invertible() {
            None
        } else {
            let det: i64 = self.det();
            let adjoint = Matrix4 {
                m00: self.cofactor(0, 0),
                m01: self.cofactor(1, 0),
                m02: self.cofactor(2, 0),
                m03: self.cofactor(3, 0),
                m10: self.cofactor(0, 1),
                m11: self.cofactor(1, 1),
                m12: self.cofactor(2, 1),
                m13: self.cofactor(3, 1),
                m20: self.cofactor(0, 2),
                m21: self.cofactor(1, 2),
                m22: self.cofactor(2, 2),
                m23: self.cofactor(3, 2),
                m30: self.cofactor(0, 3),
                m31: self.cofactor(1, 3),
                m32: self.cofactor(2, 3),
                m33: self.cofactor(3, 3),
            };
            Some(Matrix4::div_scal(&adjoint, det))
        }
    }

    /// Entries within strictly less than the comparison epsilon of each
    /// other everywhere: the approximate comparison for matrices.
    pub open spec fn approx_eq_spec(self, other: Matrix4) -> bool {
        &&& close_strict_spec(self.m00 as int, other.m00 as int)
        &&& close_strict_spec(self.m01 as int, other.m01 as int)
        &&& close_strict_spec(self.m02 as int, other.m02 as int)
        &&& close_strict_spec(self.m03 as int, other.m03 as int)
        &&& close_strict_spec(self.m10 as int, other.m10 as int)
        &&& close_strict_spec(self.m11 as int, other.m11 as int)
        &&& close_strict_spec(self.m12 as int, other.m12 as int)
        &&& close_strict_spec(self.m13 as int, other.m13 as int)
        &&& close_strict_spec(self.m20 as int, other.m20 as int)
        &&& close_strict_spec(self.m21 as int, other.m21 as int)
        &&& close_strict_spec(self.m22 as int, other.m22 as int)
        &&& close_strict_spec(self.m23 as int, other.m23 as int)
        &&& close_strict_spec(self.m30 as int, other.m30 as int)
        &&& close_strict_spec(self.m31 as int, other.m31 as int)
        &&& close_strict_spec(self.m32 as int, other.m32 as int)
        &&& close_strict_spec(self.m33 as int, other.m33 as int)
    }

    /// Compares two matrices entry by entry, requiring a deviation
    /// strictly below the comparison epsilon.
    pub fn approx_eq(&self, other: &Matrix4) -> (r: bool)
        ensures
            r == self.approx_eq_spec(*other),
    {
        let r00: bool = close_strict(self.m00, other.m00);
        let r01: bool = close_strict(self.m01, other.m01);
        let r02: bool = close_strict(self.m02, other.m02);
        let r03: bool = close_strict(self.m03, other.m03);
        let r10: bool = close_strict(self.m10, other.m10);
        let r11: bool = close_strict(self.m11, other.m11);
        let r12: bool = close_strict(self.m12, other.m12);
        let r13: bool = close_strict(self.m13, other.m13);
        let r20: bool = close_strict(self.m20, other.m20);
        let r21: bool = close_strict(self.m21, other.m21);
        let r22: bool = close_strict(self.m22, other.m22);
        let r23: bool = close_strict(self.m23, other.m23);
        let r30: bool = close_strict(self.m30, other.m30);
        let r31: bool = close_strict(self.m31, other.m31);
        let r32: bool = close_strict(self.m32, other.m32);
        let r33: bool = close_strict(self.m33, other.m33);
        r00 && r01 && r02 && r03 && r10 && r11 && r12 && r13 && r20 && r21 && r22 && r23 && r30 && r31 && r32 && r33
    }
}

impl Default for Matrix4 {
    /// The default matrix is the zero matrix.
    fn default() -> (r: Matrix4)
        ensures
            r == Matrix4::zero_spec(),
    {
        Matrix4::zero()
    }
}


/// The transpose of a product is the product of the transposes in
/// reverse order: every entry of both sides is the same sum of the same
/// rounded products, by commutativity of scalar multiplication.
pub proof fn lemma_mul_transpose(a: Matrix4, b: Matrix4)
    ensures
        Matrix4::mul_spec(a, b).transpose_spec() == Matrix4::mul_spec(
            b.transpose_spec(),
            a.transpose_spec(),
        ),
{
    assert forall|p: int, q: int| #[trigger] fmul(p, q) == fmul(q, p) by {
        crate::fixed::lemma_fmul_comm(p, q);
    }
}

} // verus!
