//! Affine-transform constructors: pure functions producing 4x4 matrices.
//! Transforms compose by matrix multiplication, and the rightmost factor
//! of a product acts first on a point.
//!
//! The rotation constructors take the angle's cosine and sine as grid
//! scalars, since only those two values of the angle enter the standard
//! rotation-matrix layout.

use vstd::prelude::*;

verus! {

use crate::fixed::in_i64;
use crate::matrix4::Matrix4;

/// The translation matrix as a value: the identity with `x`, `y`, `z` in
/// the last column.
pub open spec fn translation_spec(x: i64, y: i64, z: i64) -> Matrix4 {
    Matrix4 {
        m00: crate::UNIT,
        m01: 0i64,
        m02: 0i64,
        m03: x,
        m10: 0i64,
        m11: crate::UNIT,
        m12: 0i64,
        m13: y,
        m20: 0i64,
        m21: 0i64,
        m22: crate::UNIT,
        m23: z,
        m30: 0i64,
        m31: 0i64,
        m32: 0i64,
        m33: crate::UNIT,
    }
}

/// The scaling matrix as a value: `x`, `y`, `z` on the diagonal.
pub open spec fn scaling_spec(x: i64, y: i64, z: i64) -> Matrix4 {
    Matrix4 {
        m00: x,
        m01: 0i64,
        m02: 0i64,
        m03: 0i64,
        m10: 0i64,
        m11: y,
        m12: 0i64,
        m13: 0i64,
        m20: 0i64,
        m21: 0i64,
        m22: z,
        m23: 0i64,
        m30: 0i64,
        m31: 0i64,
        m32: 0i64,
        m33: crate::UNIT,
    }
}

/// Creates a 3D translation matrix.
pub fn translation(x: i64, y: i64, z: i64) -> (r: Matrix4)
    ensures
        r == translation_spec(x, y, z),
{
    let mut matrix: Matrix4 = Matrix4::identity();
    let _ = matrix.set(0, 3, x);
    let _ = matrix.set(1, 3, y);
    let _ = matrix.set(2, 3, z);
    matrix
}

/// Creates a 3D scaling matrix.
pub fn scaling(x: i64, y: i64, z: i64) -> (r: Matrix4)
    ensures
        r == scaling_spec(x, y, z),
{
    let mut matrix: Matrix4 = Matrix4::identity();
    let _ = matrix.set(0, 0, x);
    let _ = matrix.set(1, 1, y);
    let _ = matrix.set(2, 2, z);
    matrix
}

/// Creates a rotation matrix around the x-axis from the cosine and sine
/// of the angle: the standard right-handed rotation block in rows and
/// columns 1 and 2.
pub fn rotation_x(cos: i64, sin: i64) -> (r: Matrix4)
    requires
        in_i64(-sin as int),
    ensures
        r == (Matrix4 {
            m00: crate::UNIT,
            m01: 0i64,
            m02: 0i64,
            m03: 0i64,
            m10: 0i64,
            m11: cos,
            m12: (-sin as int) as i64,
            m13: 0i64,
            m20: 0i64,
            m21: sin,
            m22: cos,
            m23: 0i64,
            m30: 0i64,
            m31: 0i64,
            m32: 0i64,
            m33: crate::UNIT,
        }),
{
    Matrix4 {
        m00: crate::UNIT,
        m01: 0,
        m02: 0,
        m03: 0,
        m10: 0,
        m11: cos,
        m12: -sin,
        m13: 0,
        m20: 0,
        m21: sin,
        m22: cos,
        m23: 0,
        m30: 0,
        m31: 0,
        m32: 0,
        m33: crate::UNIT,
    }
}

/// Creates a rotation matrix around the y-axis from the cosine and sine
/// of the angle.
pub fn rotation_y(cos: i64, sin: i64) -> (r: Matrix4)
    requires
        in_i64(-sin as int),
    ensures
        r == (Matrix4 {
            m00: cos,
            m01: 0i64,
            m02: sin,
            m03: 0i64,
            m10: 0i64,
            m11: crate::UNIT,
            m12: 0i64,
            m13: 0i64,
            m20: (-sin as int) as i64,
            m21: 0i64,
            m22: cos,
            m23: 0i64,
            m30: 0i64,
            m31: 0i64,
            m32: 0i64,
            m33: crate::UNIT,
        }),
{
    Matrix4 {
        m00: cos,
        m01: 0,
        m02: sin,
        m03: 0,
        m10: 0,
        m11: crate::UNIT,
        m12: 0,
        m13: 0,
        m20: -sin,
        m21: 0,
        m22: cos,
        m23: 0,
        m30: 0,
        m31: 0,
        m32: 0,
        m33: crate::UNIT,
    }
}

/// Creates a rotation matrix around the z-axis from the cosine and sine
/// of the angle.
pub fn rotation_z(cos: i64, sin: i64) -> (r: Matrix4)
    requires
        in_i64(-sin as int),
    ensures
        r == (Matrix4 {
            m00: cos,
            m01: (-sin as int) as i64,
            m02: 0i64,
            m03: 0i64,
            m10: sin,
            m11: cos,
            m12: 0i64,
            m13: 0i64,
            m20: 0i64,
            m21: 0i64,
            m22: crate::UNIT,
            m23: 0i64,
            m30: 0i64,
            m31: 0i64,
            m32: 0i64,
            m33: crate::UNIT,
        }),
{
    Matrix4 {
        m00: cos,
        m01: -sin,
        m02: 0,
        m03: 0,
        m10: sin,
        m11: cos,
        m12: 0,
        m13: 0,
        m20: 0,
        m21: 0,
        m22: crate::UNIT,
        m23: 0,
        m30: 0,
        m31: 0,
        m32: 0,
        m33: crate::UNIT,
    }
}

/// Creates a shear matrix: entry `(row, col)` of the 3x3 block receives
/// the factor that scales coordinate `col`'s contribution to coordinate
/// `row`.
pub fn shear(x_y: i64, x_z: i64, y_x: i64, y_z: i64, z_x: i64, z_y: i64) -> (r: Matrix4)
    ensures
        r == (Matrix4 {
            m00: crate::UNIT,
            m01: x_y,
            m02: x_z,
            m03: 0i64,
            m10: y_x,
            m11: crate::UNIT,
            m12: y_z,
            m13: 0i64,
            m20: z_x,
            m21: z_y,
            m22: crate::UNIT,
            m23: 0i64,
            m30: 0i64,
            m31: 0i64,
            m32: 0i64,
            m33: crate::UNIT,
        }),
{
    Matrix4 {
        m00: crate::UNIT,
        m01: x_y,
        m02: x_z,
        m03: 0,
        m10: y_x,
        m11: crate::UNIT,
        m12: y_z,
        m13: 0,
        m20: z_x,
        m21: z_y,
        m22: crate::UNIT,
        m23: 0,
        m30: 0,
        m31: 0,
        m32: 0,
        m33: crate::UNIT,
    }
}

/// A translation composed with its own inverse is the identity: the
/// translation matrix has determinant 1.0, its inverse is the opposite
/// translation, and their product is exactly the identity matrix.
pub proof fn lemma_translation_inverse(x: i64, y: i64, z: i64)
    requires
        in_i64(-x as int),
        in_i64(-y as int),
        in_i64(-z as int),
    ensures
        translation_spec(x, y, z).det_spec() == crate::UNIT,
        translation_spec(x, y, z).invertible_spec(),
        translation_spec(x, y, z).inverse_spec() == translation_spec(
            (-x as int) as i64,
            (-y as int) as i64,
            (-z as int) as i64,
        ),
        Matrix4::mul_spec(translation_spec(x, y, z), translation_spec(x, y, z).inverse_spec())
            == Matrix4::identity_spec(),
{
    broadcast use crate::fixed::group_fixed_identities;

    let t = translation_spec(x, y, z);
    assert(t.det_spec() == crate::UNIT);
    let inv = t.inverse_spec();
    assert(inv.m03 == (-x as int) as i64);
    assert(inv == translation_spec((-x as int) as i64, (-y as int) as i64, (-z as int) as i64));
    assert(Matrix4::mul_spec(t, inv) == Matrix4::identity_spec());
}

} // verus!
