//! A small 3D affine-geometry kernel: homogeneous-coordinate tuples, square
//! matrices of sizes 2, 3 and 4 with cofactor-expansion determinants and
//! inverses, affine-transform constructors built on the 4x4 matrix, and a
//! pixel canvas that serializes to the plain-text PPM (P3) image format.
//!
//! All coordinates are fixed-point numbers: an `i64` counts whole multiples
//! of the grid resolution 1/`UNIT` = 1e-7.  Addition and subtraction are
//! exact; every multiplication and division rounds its mathematical result
//! to the nearest grid point (ties away from zero), so each operation's
//! outcome is stated exactly in its contract.  The epsilon of the kernel's
//! approximate comparisons, 1e-5, is `EPSILON_STEPS` grid steps: two
//! orders of magnitude above the resolution, so the rounding noise of
//! composed transforms stays far below the comparison tolerance.

use vstd::prelude::*;

pub mod canvas;
pub mod color;
pub mod fixed;
pub mod matrix2;
pub mod matrix3;
pub mod matrix4;
pub mod transform;
pub mod tuple;

verus! {

/// Number of grid steps in 1.0: the scalar value `k` stands for the real
/// number `k / UNIT`.
pub const UNIT: i64 = 10000000;

/// Comparison tolerance in grid steps: the real epsilon 1e-5 of all
/// approximate comparisons.
pub const EPSILON_STEPS: i64 = 100;

} // verus!
