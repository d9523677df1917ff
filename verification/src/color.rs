//! Colors: three-component scalar triplets with the same arithmetic shape
//! as `Tuple` but no homogeneous coordinate.  Components are unclamped
//! here; clamping to [0, 1] happens only when a canvas is serialized.

use vstd::prelude::*;

verus! {

use crate::fixed::close_strict;
use crate::fixed::close_strict_spec;
use crate::fixed::fdiv;
use crate::fixed::fixed_div;
use crate::fixed::fixed_mul;
use crate::fixed::fmul;
use crate::fixed::in_i64;

/// An RGB color in grid-step scalars (`UNIT` is full intensity 1.0).
#[derive(Clone, Copy, Debug, PartialEq, Eq, Structural)]
pub struct Color {
    pub red: i64,
    pub green: i64,
    pub blue: i64,
}

/// Component-wise sums stay in the scalar range.
pub open spec fn add_fits(c1: Color, c2: Color) -> bool {
    &&& in_i64(c1.red + c2.red)
    &&& in_i64(c1.green + c2.green)
    &&& in_i64(c1.blue + c2.blue)
}

/// Component-wise differences stay in the scalar range.
pub open spec fn sub_fits(c1: Color, c2: Color) -> bool {
    &&& in_i64(c1.red - c2.red)
    &&& in_i64(c1.green - c2.green)
    &&& in_i64(c1.blue - c2.blue)
}

/// Component-wise rounded products stay in the scalar range.
pub open spec fn mul_fits(c1: Color, c2: Color) -> bool {
    &&& in_i64(fmul(c1.red as int, c2.red as int))
    &&& in_i64(fmul(c1.green as int, c2.green as int))
    &&& in_i64(fmul(c1.blue as int, c2.blue as int))
}

/// Component-wise rounded products with `scal` stay in the scalar range.
pub open spec fn scale_fits(c: Color, scal: int) -> bool {
    &&& in_i64(fmul(c.red as int, scal))
    &&& in_i64(fmul(c.green as int, scal))
    &&& in_i64(fmul(c.blue as int, scal))
}

/// Component-wise rounded quotients by `scal` stay in the scalar range.
pub open spec fn div_fits(c: Color, scal: int) -> bool {
    &&& in_i64(fdiv(c.red as int, scal))
    &&& in_i64(fdiv(c.green as int, scal))
    &&& in_i64(fdiv(c.blue as int, scal))
}

impl Color {
    /// Creates the color with the given grid-step components.
    pub fn new(red: i64, green: i64, blue: i64) -> (r: Color)
        ensures
            r == (Color { red, green, blue }),
    {
        Color { red, green, blue }
    }

    /// Component-wise sum of two colors.
    pub fn add(c1: &Color, c2: &Color) -> (r: Color)
        requires
            add_fits(*c1, *c2),
        ensures
            r.red == c1.red + c2.red,
            r.green == c1.green + c2.green,
            r.blue == c1.blue + c2.blue,
    {
        Color { red: c1.red + c2.red, green: c1.green + c2.green, blue: c1.blue + c2.blue }
    }

    /// Component-wise difference of two colors.
    pub fn sub(c1: &Color, c2: &Color) -> (r: Color)
        requires
            sub_fits(*c1, *c2),
        ensures
            r.red == c1.red - c2.red,
            r.green == c1.green - c2.green,
            r.blue == c1.blue - c2.blue,
    {
        Color { red: c1.red - c2.red, green: c1.green - c2.green, blue: c1.blue - c2.blue }
    }

    /// Component-wise negation.
    pub fn neg(&self) -> (r: Color)
        requires
            in_i64(-self.red),
            in_i64(-self.green),
            in_i64(-self.blue),
        ensures
            r.red == -self.red,
            r.green == -self.green,
            r.blue == -self.blue,
    {
        Color { red: -self.red, green: -self.green, blue: -self.blue }
    }

    /// Scales every component by `scal`, rounding each product to the grid.
    pub fn mul_scal(&self, scal: i64) -> (r: Color)
        requires
            scale_fits(*self, scal as int),
        ensures
            r.red == fmul(self.red as int, scal as int),
            r.green == fmul(self.green as int, scal as int),
            r.blue == fmul(self.blue as int, scal as int),
    {
        Color {
            red: fixed_mul(self.red, scal),
            green: fixed_mul(self.green, scal),
            blue: fixed_mul(self.blue, scal),
        }
    }

    /// Divides every component by `scal` (`scal != 0`), rounding each
    /// quotient to the grid.
    pub fn div_scal(&self, scal: i64) -> (r: Color)
        requires
            scal != 0,
            div_fits(*self, scal as int),
        ensures
            r.red == fdiv(self.red as int, scal as int),
            r.green == fdiv(self.green as int, scal as int),
            r.blue == fdiv(self.blue as int, scal as int),
    {
        Color {
            red: fixed_div(self.red, scal),
            green: fixed_div(self.green, scal),
            blue: fixed_div(self.blue, scal),
        }
    }

    /// Components within strictly less than the comparison epsilon of
    /// each other everywhere: the approximate comparison for colors.
    pub open spec fn approx_eq_spec(self, other: Color) -> bool {
        &&& close_strict_spec(self.red as int, other.red as int)
        &&& close_strict_spec(self.green as int, other.green as int)
        &&& close_strict_spec(self.blue as int, other.blue as int)
    }

    /// Compares two colors component by component, requiring a deviation
    /// strictly below the comparison epsilon.
    pub fn approx_eq(&self, other: &Color) -> (r: bool)
        ensures
            r == self.approx_eq_spec(*other),
    {
        let rr: bool = close_strict(self.red, other.red);
        let rg: bool = close_strict(self.green, other.green);
        let rb: bool = close_strict(self.blue, other.blue);
        rr && rg && rb
    }

    /// The Hadamard (component-wise) product of two colors.
    pub fn hadamard_product(c1: &Color, c2: &Color) -> (r: Color)
        requires
            mul_fits(*c1, *c2),
        ensures
            r.red == fmul(c1.red as int, c2.red as int),
            r.green == fmul(c1.green as int, c2.green as int),
            r.blue == fmul(c1.blue as int, c2.blue as int),
    {
        Color {
            red: fixed_mul(c1.red, c2.red),
            green: fixed_mul(c1.green, c2.green),
            blue: fixed_mul(c1.blue, c2.blue),
        }
    }
}

} // verus!
