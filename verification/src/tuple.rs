//! Homogeneous-coordinate tuples: points (`w == 1.0`) and vectors
//! (`w == 0`), with the vector algebra of the kernel.
//!
//! `==` (derived, structural) compares the stored step counts exactly;
//! `approx_eq` is the epsilon comparison geometric code uses.

use vstd::prelude::*;

verus! {

use crate::fixed::close_strict;
use crate::fixed::close_strict_spec;
use crate::fixed::div_units_by_sqrt;
use crate::fixed::is_rounded_div_sqrt;
use crate::fixed::fdiv;
use crate::fixed::fixed_div;
use crate::fixed::fixed_mul;
use crate::fixed::fmul;
use crate::fixed::in_i64;
use crate::fixed::is_rounded_sqrt;
use crate::fixed::rounded_sqrt;

/// A 4-component homogeneous coordinate.  `w == UNIT` (1.0) marks a point,
/// `w == 0` a vector; other values arise transiently from scalar
/// arithmetic.
#[derive(Clone, Copy, Debug, PartialEq, Eq, Structural)]
pub struct Tuple {
    pub x: i64,
    pub y: i64,
    pub z: i64,
    pub w: i64,
}

/// Component-wise sums stay in the scalar range.
pub open spec fn add_fits(t1: Tuple, t2: Tuple) -> bool {
    &&& in_i64(t1.x + t2.x)
    &&& in_i64(t1.y + t2.y)
    &&& in_i64(t1.z + t2.z)
    &&& in_i64(t1.w + t2.w)
}

/// Component-wise differences stay in the scalar range.
pub open spec fn sub_fits(t1: Tuple, t2: Tuple) -> bool {
    &&& in_i64(t1.x - t2.x)
    &&& in_i64(t1.y - t2.y)
    &&& in_i64(t1.z - t2.z)
    &&& in_i64(t1.w - t2.w)
}

/// Component-wise negations stay in the scalar range.
pub open spec fn neg_fits(t: Tuple) -> bool {
    &&& in_i64(-t.x)
    &&& in_i64(-t.y)
    &&& in_i64(-t.z)
    &&& in_i64(-t.w)
}

/// Component-wise rounded products with `scal` stay in the scalar range.
pub open spec fn scale_fits(t: Tuple, scal: int) -> bool {
    &&& in_i64(fmul(t.x as int, scal))
    &&& in_i64(fmul(t.y as int, scal))
    &&& in_i64(fmul(t.z as int, scal))
    &&& in_i64(fmul(t.w as int, scal))
}

/// Component-wise rounded quotients by `scal` stay in the scalar range.
pub open spec fn div_fits(t: Tuple, scal: int) -> bool {
    &&& in_i64(fdiv(t.x as int, scal))
    &&& in_i64(fdiv(t.y as int, scal))
    &&& in_i64(fdiv(t.z as int, scal))
    &&& in_i64(fdiv(t.w as int, scal))
}

/// The exact component-wise sum.
pub open spec fn spec_add(t1: Tuple, t2: Tuple) -> Tuple {
    Tuple {
        x: (t1.x + t2.x) as i64,
        y: (t1.y + t2.y) as i64,
        z: (t1.z + t2.z) as i64,
        w: (t1.w + t2.w) as i64,
    }
}

/// The exact component-wise difference.
pub open spec fn spec_sub(t1: Tuple, t2: Tuple) -> Tuple {
    Tuple {
        x: (t1.x - t2.x) as i64,
        y: (t1.y - t2.y) as i64,
        z: (t1.z - t2.z) as i64,
        w: (t1.w - t2.w) as i64,
    }
}

/// The exact component-wise negation.
pub open spec fn spec_neg(t: Tuple) -> Tuple {
    Tuple { x: (-t.x) as i64, y: (-t.y) as i64, z: (-t.z) as i64, w: (-t.w) as i64 }
}

/// The rounded component-wise scaling.
pub open spec fn spec_scale(t: Tuple, scal: int) -> Tuple {
    Tuple {
        x: fmul(t.x as int, scal) as i64,
        y: fmul(t.y as int, scal) as i64,
        z: fmul(t.z as int, scal) as i64,
        w: fmul(t.w as int, scal) as i64,
    }
}

/// The rounded dot product.
pub open spec fn spec_dot(a: Tuple, b: Tuple) -> int {
    fmul(a.x as int, b.x as int) + fmul(a.y as int, b.y as int) + fmul(a.z as int, b.z as int)
        + fmul(a.w as int, b.w as int)
}

/// Every rounded product of the dot product, and their sum, stays in the
/// scalar range.
pub open spec fn dot_fits(a: Tuple, b: Tuple) -> bool {
    &&& in_i64(fmul(a.x as int, b.x as int))
    &&& in_i64(fmul(a.y as int, b.y as int))
    &&& in_i64(fmul(a.z as int, b.z as int))
    &&& in_i64(fmul(a.w as int, b.w as int))
    &&& in_i64(spec_dot(a, b))
}

/// The rounded three-component cross product (a vector).
pub open spec fn spec_cross(a: Tuple, b: Tuple) -> Tuple {
    Tuple {
        x: (fmul(a.y as int, b.z as int) - fmul(a.z as int, b.y as int)) as i64,
        y: (fmul(a.z as int, b.x as int) - fmul(a.x as int, b.z as int)) as i64,
        z: (fmul(a.x as int, b.y as int) - fmul(a.y as int, b.x as int)) as i64,
        w: 0,
    }
}

/// Every rounded product of the cross product, and each difference, stays
/// in the scalar range.
pub open spec fn cross_fits(a: Tuple, b: Tuple) -> bool {
    &&& in_i64(fmul(a.y as int, b.z as int))
    &&& in_i64(fmul(a.z as int, b.y as int))
    &&& in_i64(fmul(a.z as int, b.x as int))
    &&& in_i64(fmul(a.x as int, b.z as int))
    &&& in_i64(fmul(a.x as int, b.y as int))
    &&& in_i64(fmul(a.y as int, b.x as int))
    &&& in_i64(fmul(a.y as int, b.z as int) - fmul(a.z as int, b.y as int))
    &&& in_i64(fmul(a.z as int, b.x as int) - fmul(a.x as int, b.z as int))
    &&& in_i64(fmul(a.x as int, b.y as int) - fmul(a.y as int, b.x as int))
}

/// The sum of the squared components: the squared magnitude.
pub open spec fn sum_sq(t: Tuple) -> int {
    t.x * t.x + t.y * t.y + t.z * t.z + t.w * t.w
}

/// The square root of `n` rounded to the nearest integer, as a function.
pub open spec fn sqrt_rounded(n: int) -> int {
    choose|r: int| is_rounded_sqrt(n, r)
}

/// The rounded square root is unique: the windows of consecutive roots do
/// not overlap.
pub proof fn lemma_rounded_sqrt_unique(n: int, r1: int, r2: int)
    by (nonlinear_arith)
    requires
        is_rounded_sqrt(n, r1),
        is_rounded_sqrt(n, r2),
    ensures
        r1 == r2,
{
}

impl Tuple {
    /// Creates the tuple with the given grid-step components.
    pub fn new(x: i64, y: i64, z: i64, w: i64) -> (r: Tuple)
        ensures
            r == (Tuple { x, y, z, w }),
    {
        Tuple { x, y, z, w }
    }

    /// The all-zero tuple.
    pub fn zero() -> (r: Tuple)
        ensures
            r == (Tuple { x: 0i64, y: 0i64, z: 0i64, w: 0i64 }),
    {
        Tuple::new(0, 0, 0, 0)
    }

    /// A point: `w` is 1.0.
    pub fn new_point(x: i64, y: i64, z: i64) -> (r: Tuple)
        ensures
            r == (Tuple { x, y, z, w: crate::UNIT }),
    {
        Tuple::new(x, y, z, crate::UNIT)
    }

    /// A vector: `w` is 0.
    pub fn new_vector(x: i64, y: i64, z: i64) -> (r: Tuple)
        ensures
            r == (Tuple { x, y, z, w: 0i64 }),
    {
        Tuple::new(x, y, z, 0)
    }

    /// Builds a tuple from a component function: `x = f(0)`, `y = f(1)`,
    /// `z = f(2)`, `w = f(3)`.
    pub fn from_fn<F: Fn(usize) -> i64>(f: F) -> (r: Tuple)
        requires
            forall|i: usize| i < 4 ==> call_requires(f, (i,)),
        ensures
            call_ensures(f, (0usize,), r.x),
            call_ensures(f, (1usize,), r.y),
            call_ensures(f, (2usize,), r.z),
            call_ensures(f, (3usize,), r.w),
    {
        let x: i64 = f(0);
        let y: i64 = f(1);
        let z: i64 = f(2);
        let w: i64 = f(3);
        Tuple { x, y, z, w }
    }

    /// Whether the tuple is a point (`w` is exactly 1.0).
    pub fn is_point(&self) -> (r: bool)
        ensures
            r == (self.w == crate::UNIT),
    {
        self.w == crate::UNIT
    }

    /// Whether the tuple is a vector (`w` is exactly 0).
    pub fn is_vector(&self) -> (r: bool)
        ensures
            r == (self.w == 0),
    {
        self.w == 0
    }

    /// The components, in order.
    pub fn get(&self) -> (r: (i64, i64, i64, i64))
        ensures
            r == (self.x, self.y, self.z, self.w),
    {
        (self.x, self.y, self.z, self.w)
    }

    /// Component-wise sum of two tuples.
    pub fn add(t1: &Tuple, t2: &Tuple) -> (r: Tuple)
        requires
            add_fits(*t1, *t2),
        ensures
            r == spec_add(*t1, *t2),
            r.x == t1.x + t2.x,
            r.y == t1.y + t2.y,
            r.z == t1.z + t2.z,
            r.w == t1.w + t2.w,
    {
        Tuple { x: t1.x + t2.x, y: t1.y + t2.y, z: t1.z + t2.z, w: t1.w + t2.w }
    }

    /// Component-wise difference of two tuples.
    pub fn sub(t1: &Tuple, t2: &Tuple) -> (r: Tuple)
        requires
            sub_fits(*t1, *t2),
        ensures
            r == spec_sub(*t1, *t2),
            r.x == t1.x - t2.x,
            r.y == t1.y - t2.y,
            r.z == t1.z - t2.z,
            r.w == t1.w - t2.w,
    {
        Tuple { x: t1.x - t2.x, y: t1.y - t2.y, z: t1.z - t2.z, w: t1.w - t2.w }
    }

    /// Component-wise negation.
    pub fn neg(&self) -> (r: Tuple)
        requires
            neg_fits(*self),
        ensures
            r == spec_neg(*self),
            r.x == -self.x,
            r.y == -self.y,
            r.z == -self.z,
            r.w == -self.w,
    {
        Tuple { x: -self.x, y: -self.y, z: -self.z, w: -self.w }
    }

    /// Scales every component by `scal`, rounding each product to the grid.
    pub fn mul_scal(&self, scal: i64) -> (r: Tuple)
        requires
            scale_fits(*self, scal as int),
        ensures
            r == spec_scale(*self, scal as int),
            r.x == fmul(self.x as int, scal as int),
            r.y == fmul(self.y as int, scal as int),
            r.z == fmul(self.z as int, scal as int),
            r.w == fmul(self.w as int, scal as int),
    {
        Tuple {
            x: fixed_mul(self.x, scal),
            y: fixed_mul(self.y, scal),
            z: fixed_mul(self.z, scal),
            w: fixed_mul(self.w, scal),
        }
    }

    /// Divides every component by `scal` (`scal != 0`), rounding each
    /// quotient to the grid.
    pub fn div_scal(&self, scal: i64) -> (r: Tuple)
        requires
            scal != 0,
            div_fits(*self, scal as int),
        ensures
            r.x == fdiv(self.x as int, scal as int),
            r.y == fdiv(self.y as int, scal as int),
            r.z == fdiv(self.z as int, scal as int),
            r.w == fdiv(self.w as int, scal as int),
    {
        Tuple {
            x: fixed_div(self.x, scal),
            y: fixed_div(self.y, scal),
            z: fixed_div(self.z, scal),
            w: fixed_div(self.w, scal),
        }
    }

    /// Length of the tuple: the square root of the sum of the squared
    /// components, rounded to the nearest grid point.
    pub fn magnitude(&self) -> (r: i64)
        requires
            sum_sq(*self) <= i64::MAX * i64::MAX,
        ensures
            r as int == sqrt_rounded(sum_sq(*self)),
            is_rounded_sqrt(sum_sq(*self), r as int),
            r >= 0,
    {
        proof {
            lemma_squares_bounded(self.x as int, self.y as int, self.z as int, self.w as int);
        }
        let xx: i128 = self.x as i128 * self.x as i128;
        let yy: i128 = self.y as i128 * self.y as i128;
        let zz: i128 = self.z as i128 * self.z as i128;
        let ww: i128 = self.w as i128 * self.w as i128;
        let n: u128 = (xx + yy + zz + ww) as u128;
        let root: u128 = rounded_sqrt(n);
        proof {
            lemma_rounded_sqrt_in_i64(n as int, root as int);
            lemma_rounded_sqrt_unique(
                sum_sq(*self),
                root as int,
                sqrt_rounded(sum_sq(*self)),
            );
        }
        root as i64
    }

    /// Scales the tuple to length 1.0: each component is the nearest grid
    /// point of the component divided by the true (unrounded) length.
    /// The tuple must be nonzero, and small enough that the root-free
    /// squared comparisons fit 128-bit arithmetic.
    pub fn normalize(&self) -> (r: Tuple)
        requires
            1 <= sum_sq(*self) <= 0x800_0000_0000_0000_0000,
        ensures
            is_rounded_div_sqrt(self.x * (crate::UNIT as int), sum_sq(*self), r.x as int),
            is_rounded_div_sqrt(self.y * (crate::UNIT as int), sum_sq(*self), r.y as int),
            is_rounded_div_sqrt(self.z * (crate::UNIT as int), sum_sq(*self), r.z as int),
            is_rounded_div_sqrt(self.w * (crate::UNIT as int), sum_sq(*self), r.w as int),
            forall|m: int|
                is_rounded_sqrt(sum_sq(r), m) ==> close_strict_spec(m, crate::UNIT as int),
    {
        proof {
            lemma_squares_bounded(self.x as int, self.y as int, self.z as int, self.w as int);
        }
        let xx: i128 = self.x as i128 * self.x as i128;
        let yy: i128 = self.y as i128 * self.y as i128;
        let zz: i128 = self.z as i128 * self.z as i128;
        let ww: i128 = self.w as i128 * self.w as i128;
        let s: u128 = (xx + yy + zz + ww) as u128;
        let r = Tuple {
            x: div_units_by_sqrt(self.x, s),
            y: div_units_by_sqrt(self.y, s),
            z: div_units_by_sqrt(self.z, s),
            w: div_units_by_sqrt(self.w, s),
        };
        proof {
            lemma_normalize_sum_sq_bounds(*self, r);
            assert forall|m: int| is_rounded_sqrt(sum_sq(r), m) implies close_strict_spec(
                m,
                crate::UNIT as int,
            ) by {
                lemma_unit_magnitude_from_bounds(sum_sq(r), m);
            }
        }
        r
    }

    /// Components within strictly less than the comparison epsilon of
    /// each other everywhere: the approximate comparison for tuples.
    pub open spec fn approx_eq_spec(self, other: Tuple) -> bool {
        &&& close_strict_spec(self.x as int, other.x as int)
        &&& close_strict_spec(self.y as int, other.y as int)
        &&& close_strict_spec(self.z as int, other.z as int)
        &&& close_strict_spec(self.w as int, other.w as int)
    }

    /// Compares two tuples component by component, requiring a deviation
    /// strictly below the comparison epsilon.
    pub fn approx_eq(&self, other: &Tuple) -> (r: bool)
        ensures
            r == self.approx_eq_spec(*other),
    {
        let rx: bool = close_strict(self.x, other.x);
        let ry: bool = close_strict(self.y, other.y);
        let rz: bool = close_strict(self.z, other.z);
        let rw: bool = close_strict(self.w, other.w);
        rx && ry && rz && rw
    }

    /// Rounded dot product of two tuples.
    pub fn dot(tuple_a: &Tuple, tuple_b: &Tuple) -> (r: i64)
        requires
            dot_fits(*tuple_a, *tuple_b),
        ensures
            r as int == spec_dot(*tuple_a, *tuple_b),
    {
        let xx: i64 = fixed_mul(tuple_a.x, tuple_b.x);
        let yy: i64 = fixed_mul(tuple_a.y, tuple_b.y);
        let zz: i64 = fixed_mul(tuple_a.z, tuple_b.z);
        let ww: i64 = fixed_mul(tuple_a.w, tuple_b.w);
        let total: i128 = xx as i128 + yy as i128 + zz as i128 + ww as i128;
        total as i64
    }

    /// Rounded cross product of two vectors.  Both operands must be
    /// vectors (`w == 0`); the result is a vector.
    pub fn cross(vector_a: &Tuple, vector_b: &Tuple) -> (r: Tuple)
        requires
            vector_a.w == 0,
            vector_b.w == 0,
            cross_fits(*vector_a, *vector_b),
        ensures
            r == spec_cross(*vector_a, *vector_b),
    {
        let x: i128 = fixed_mul(vector_a.y, vector_b.z) as i128 - fixed_mul(
            vector_a.z,
            vector_b.y,
        ) as i128;
        let y: i128 = fixed_mul(vector_a.z, vector_b.x) as i128 - fixed_mul(
            vector_a.x,
            vector_b.z,
        ) as i128;
        let z: i128 = fixed_mul(vector_a.x, vector_b.y) as i128 - fixed_mul(
            vector_a.y,
            vector_b.x,
        ) as i128;
        Tuple::new_vector(x as i64, y as i64, z as i64)
    }
}

/// Squares are non-negative, and a sum of four squares bounded by a square
/// stays within the bound.
proof fn lemma_squares_bounded(x: int, y: int, z: int, w: int)
    by (nonlinear_arith)
    requires
        in_i64(x),
        in_i64(y),
        in_i64(z),
        in_i64(w),
    ensures
        0 <= x * x <= 0x4000_0000_0000_0000_0000_0000_0000_0000,
        0 <= y * y <= 0x4000_0000_0000_0000_0000_0000_0000_0000,
        0 <= z * z <= 0x4000_0000_0000_0000_0000_0000_0000_0000,
        0 <= w * w <= 0x4000_0000_0000_0000_0000_0000_0000_0000,
{
}

/// A rounded square root of a value at most `i64::MAX` squared is itself at
/// most `i64::MAX`.
proof fn lemma_rounded_sqrt_in_i64(n: int, r: int)
    by (nonlinear_arith)
    requires
        0 <= n <= i64::MAX * i64::MAX,
        is_rounded_sqrt(n, r),
    ensures
        r <= i64::MAX,
{
}

/// One component of a normalized tuple: its magnitude is at most one
/// whole unit, and its square-root window brackets the scaled component.
proof fn lemma_div_sqrt_component(x: int, s: int, r: int, mag: int)
    by (nonlinear_arith)
    requires
        1 <= s,
        x * x <= s,
        mag == if r >= 0 {
            r
        } else {
            -r
        },
        is_rounded_div_sqrt(x * (crate::UNIT as int), s, r),
    ensures
        0 <= mag <= crate::UNIT as int,
        (4 * (r * r) - 4 * mag) * s <= 4 * ((x * x) * ((crate::UNIT as int) * (
        crate::UNIT as int))),
        4 * ((x * x) * ((crate::UNIT as int) * (crate::UNIT as int))) < (4 * (r * r) + 4 * mag
            + 1) * s,
{
}

/// The squared length of a normalized tuple lies within four units of
/// one squared whole unit.
proof fn lemma_normalize_sum_sq_bounds(v: Tuple, r: Tuple)
    requires
        1 <= sum_sq(v),
        is_rounded_div_sqrt(v.x * (crate::UNIT as int), sum_sq(v), r.x as int),
        is_rounded_div_sqrt(v.y * (crate::UNIT as int), sum_sq(v), r.y as int),
        is_rounded_div_sqrt(v.z * (crate::UNIT as int), sum_sq(v), r.z as int),
        is_rounded_div_sqrt(v.w * (crate::UNIT as int), sum_sq(v), r.w as int),
    ensures
        (crate::UNIT as int) * (crate::UNIT as int) - 4 * (crate::UNIT as int) <= sum_sq(r),
        sum_sq(r) <= (crate::UNIT as int) * (crate::UNIT as int) + 4 * (crate::UNIT as int),
{
    let ui = crate::UNIT as int;
    let uu = ui * ui;
    let s = sum_sq(v);
    let mx = if r.x >= 0 {
        r.x as int
    } else {
        -(r.x as int)
    };
    let my = if r.y >= 0 {
        r.y as int
    } else {
        -(r.y as int)
    };
    let mz = if r.z >= 0 {
        r.z as int
    } else {
        -(r.z as int)
    };
    let mw = if r.w >= 0 {
        r.w as int
    } else {
        -(r.w as int)
    };
    lemma_squares_bounded(v.x as int, v.y as int, v.z as int, v.w as int);
    lemma_div_sqrt_component(v.x as int, s, r.x as int, mx);
    lemma_div_sqrt_component(v.y as int, s, r.y as int, my);
    lemma_div_sqrt_component(v.z as int, s, r.z as int, mz);
    lemma_div_sqrt_component(v.w as int, s, r.w as int, mw);
    let sr = sum_sq(r);
    let p = mx + my + mz + mw;
    // The four scaled squares sum to the squared input length times the
    // squared unit, and the windows sum accordingly.
    assert(4 * ((v.x * v.x) * uu) + 4 * ((v.y * v.y) * uu) + 4 * ((v.z * v.z) * uu) + 4 * ((v.w
        * v.w) * uu) == 4 * (s * uu)) by (nonlinear_arith)
        requires
            s == v.x * v.x + v.y * v.y + v.z * v.z + v.w * v.w,
            uu == ui * ui,
    ;
    assert((4 * (r.x * r.x) - 4 * mx) * s + (4 * (r.y * r.y) - 4 * my) * s + (4 * (r.z * r.z) - 4
        * mz) * s + (4 * (r.w * r.w) - 4 * mw) * s == (4 * sr - 4 * p) * s) by (nonlinear_arith)
        requires
            sr == r.x * r.x + r.y * r.y + r.z * r.z + r.w * r.w,
            p == mx + my + mz + mw,
    ;
    assert((4 * (r.x * r.x) + 4 * mx + 1) * s + (4 * (r.y * r.y) + 4 * my + 1) * s + (4 * (r.z
        * r.z) + 4 * mz + 1) * s + (4 * (r.w * r.w) + 4 * mw + 1) * s == (4 * sr + 4 * p + 4) * s)
        by (nonlinear_arith)
        requires
            sr == r.x * r.x + r.y * r.y + r.z * r.z + r.w * r.w,
            p == mx + my + mz + mw,
    ;
    assert(4 * sr - 4 * p <= 4 * uu) by (nonlinear_arith)
        requires
            (4 * sr - 4 * p) * s <= 4 * (s * uu),
            s >= 1,
            uu >= 0,
    ;
    assert(4 * uu < 4 * sr + 4 * p + 4) by (nonlinear_arith)
        requires
            4 * (s * uu) < (4 * sr + 4 * p + 4) * s,
            s >= 1,
    ;
}

/// A squared length within four units of one squared whole unit has a
/// rounded square root within the comparison epsilon of one whole unit.
proof fn lemma_unit_magnitude_from_bounds(ss: int, m: int)
    by (nonlinear_arith)
    requires
        (crate::UNIT as int) * (crate::UNIT as int) - 4 * (crate::UNIT as int) <= ss,
        ss <= (crate::UNIT as int) * (crate::UNIT as int) + 4 * (crate::UNIT as int),
        is_rounded_sqrt(ss, m),
    ensures
        close_strict_spec(m, crate::UNIT as int),
{
}

/// For all points `p` and vectors `v`: adding `v` and subtracting it again
/// returns exactly `p`.
pub proof fn lemma_add_sub_cancel(p: Tuple, v: Tuple)
    requires
        add_fits(p, v),
    ensures
        sub_fits(spec_add(p, v), v),
        spec_sub(spec_add(p, v), v) == p,
{
}

/// Tuple addition is commutative.
pub proof fn lemma_add_comm(v: Tuple, w: Tuple)
    requires
        add_fits(v, w),
    ensures
        add_fits(w, v),
        spec_add(v, w) == spec_add(w, v),
{
}

/// The cross product is antisymmetric: `v x w == -(w x v)`.
pub proof fn lemma_cross_antisym(v: Tuple, w: Tuple)
    requires
        cross_fits(v, w),
        cross_fits(w, v),
    ensures
        spec_cross(v, w) == spec_neg(spec_cross(w, v)),
{
    crate::fixed::lemma_fmul_comm(v.y as int, w.z as int);
    crate::fixed::lemma_fmul_comm(v.z as int, w.y as int);
    crate::fixed::lemma_fmul_comm(v.z as int, w.x as int);
    crate::fixed::lemma_fmul_comm(v.x as int, w.z as int);
    crate::fixed::lemma_fmul_comm(v.x as int, w.y as int);
    crate::fixed::lemma_fmul_comm(v.y as int, w.x as int);
}

} // verus!
