//! Fixed-point scalar arithmetic on the 1/`UNIT` grid.
//!
//! A scalar is an `i64` counting grid steps.  Sums and differences are
//! exact; products and quotients round the mathematical result to the
//! nearest grid point, ties away from zero.  The spec functions here state
//! that rounding exactly, and every executable operation is proved to
//! return precisely the specified value.

use vstd::prelude::*;

verus! {

use vstd::arithmetic::div_mod::lemma_fundamental_div_mod;
use vstd::arithmetic::div_mod::lemma_fundamental_div_mod_converse;

/// Rounds the rational `n / d` (for `d > 0`) to the nearest integer, ties
/// away from zero.
pub open spec fn rtn(n: int, d: int) -> int
    recommends
        d > 0,
{
    if n >= 0 {
        (2 * n + d) / (2 * d)
    } else {
        -((2 * (-n) + d) / (2 * d))
    }
}

/// The scalar value `x` lies in the representable `i64` range.
pub open spec fn in_i64(x: int) -> bool {
    i64::MIN <= x <= i64::MAX
}

/// Product of two scalars, rounded to the nearest grid point.
pub open spec fn fmul(a: int, b: int) -> int {
    rtn(a * b, crate::UNIT as int)
}

/// Quotient of two scalars (`b != 0`), rounded to the nearest grid point.
pub open spec fn fdiv(a: int, b: int) -> int
    recommends
        b != 0,
{
    if b > 0 {
        rtn(a * (crate::UNIT as int), b)
    } else {
        rtn(-(a * (crate::UNIT as int)), -b)
    }
}

/// Rounding a quotient of non-negative integers agrees with flooring the
/// quotient and then rounding up exactly when the remainder is at least
/// half the divisor.
pub proof fn lemma_rtn_decompose(n: int, d: int)
    requires
        n >= 0,
        d > 0,
    ensures
        rtn(n, d) == n / d + if 2 * (n % d) >= d {
            1int
        } else {
            0int
        },
{
    let q = n / d;
    let r = n % d;
    lemma_fundamental_div_mod(n, d);
    assert(n == d * q + r);
    if 2 * r >= d {
        assert(2 * n + d == (q + 1) * (2 * d) + (2 * r - d)) by (nonlinear_arith)
            requires
                n == d * q + r,
        ;
        lemma_fundamental_div_mod_converse(2 * n + d, 2 * d, q + 1, 2 * r - d);
    } else {
        assert(2 * n + d == q * (2 * d) + (2 * r + d)) by (nonlinear_arith)
            requires
                n == d * q + r,
        ;
        lemma_fundamental_div_mod_converse(2 * n + d, 2 * d, q, 2 * r + d);
    }
}

/// Rounding is odd: negating the numerator negates the result.
pub proof fn lemma_rtn_neg(n: int, d: int)
    requires
        d > 0,
    ensures
        rtn(-n, d) == -rtn(n, d),
{
    if n == 0 {
        lemma_fundamental_div_mod_converse(d, 2 * d, 0, d);
    }
}

/// An exact quotient needs no rounding.
pub proof fn lemma_rtn_exact(k: int, d: int)
    requires
        d > 0,
    ensures
        rtn(k * d, d) == k,
    decreases
            if k >= 0 {
                0int
            } else {
                1int
            },
{
    if k >= 0 {
        assert(2 * (k * d) + d == k * (2 * d) + d) by (nonlinear_arith);
        assert(k * d >= 0) by (nonlinear_arith)
            requires
                k >= 0,
                d > 0,
        ;
        lemma_fundamental_div_mod_converse(2 * (k * d) + d, 2 * d, k, d);
    } else {
        assert(-(k * d) == (-k) * d) by (nonlinear_arith);
        lemma_rtn_exact(-k, d);
        lemma_rtn_neg(-(k * d), d);
    }
}

/// Multiplying by 1.0 (one whole unit) is exact.
pub proof fn lemma_fmul_unit(x: int)
    ensures
        fmul(crate::UNIT as int, x) == x,
        fmul(x, crate::UNIT as int) == x,
{
    let u = crate::UNIT as int;
    assert(u * x == x * u) by (nonlinear_arith);
    lemma_rtn_exact(x, u);
}

/// Multiplying by zero gives zero.
pub proof fn lemma_fmul_zero(x: int)
    ensures
        fmul(0, x) == 0,
        fmul(x, 0) == 0,
{
    let u = crate::UNIT as int;
    assert(0 * x == 0) by (nonlinear_arith);
    assert(x * 0 == 0) by (nonlinear_arith);
    lemma_rtn_exact(0, u);
}

/// Scalar multiplication is commutative.
pub proof fn lemma_fmul_comm(a: int, b: int)
    ensures
        fmul(a, b) == fmul(b, a),
{
    assert(a * b == b * a) by (nonlinear_arith);
}

/// Rewrite rule: one whole unit is a left identity of `fmul`.
pub broadcast proof fn lemma_fmul_unit_left(x: int)
    ensures
        #[trigger] fmul(crate::UNIT as int, x) == x,
{
    lemma_fmul_unit(x);
}

/// Rewrite rule: one whole unit is a right identity of `fmul`.
pub broadcast proof fn lemma_fmul_unit_right(x: int)
    ensures
        #[trigger] fmul(x, crate::UNIT as int) == x,
{
    lemma_fmul_unit(x);
}

/// Rewrite rule: zero is a left annihilator of `fmul`.
pub broadcast proof fn lemma_fmul_zero_left(x: int)
    ensures
        #[trigger] fmul(0, x) == 0,
{
    lemma_fmul_zero(x);
}

/// Rewrite rule: zero is a right annihilator of `fmul`.
pub broadcast proof fn lemma_fmul_zero_right(x: int)
    ensures
        #[trigger] fmul(x, 0) == 0,
{
    lemma_fmul_zero(x);
}

/// Rewrite rule: dividing by one whole unit changes nothing.
pub broadcast proof fn lemma_fdiv_unit(x: int)
    ensures
        #[trigger] fdiv(x, crate::UNIT as int) == x,
{
    let u = crate::UNIT as int;
    lemma_rtn_exact(x, u);
}

/// The rewrite rules for products and quotients with 0 and 1.0.
pub broadcast group group_fixed_identities {
    lemma_fmul_unit_left,
    lemma_fmul_unit_right,
    lemma_fmul_zero_left,
    lemma_fmul_zero_right,
    lemma_fdiv_unit,
}

/// Magnitude of a scalar, widened so that even `i64::MIN` is representable.
fn abs_u128(x: i64) -> (r: u128)
    ensures
        r as int == if x >= 0 {
            x as int
        } else {
            -(x as int)
        },
        r <= 0x8000_0000_0000_0000u128,
{
    if x >= 0 {
        x as u128
    } else {
        (-(x as i128)) as u128
    }
}

/// Rounds `n / d` to the nearest integer (ties up) over non-negative values.
fn udiv_round(n: u128, d: u128) -> (q: u128)
    requires
        d > 0,
    ensures
        q as int == rtn(n as int, d as int),
{
    let quot: u128 = n / d;
    let rem: u128 = n % d;
    proof {
        lemma_rtn_decompose(n as int, d as int);
        lemma_fundamental_div_mod(n as int, d as int);
    }
    if rem >= d - rem {
        proof {
            // The round-up case needs d >= 2, so the quotient is at most
            // half of n and adding one cannot overflow.
            assert(quot < u128::MAX) by (nonlinear_arith)
                requires
                    n as int == d as int * quot as int + rem as int,
                    0 <= rem < d,
                    2 * rem as int >= d as int,
                    n <= u128::MAX,
            ;
        }
        quot + 1
    } else {
        quot
    }
}

/// Relates a product of magnitudes to the magnitude of the product.
proof fn lemma_abs_mul(a: int, b: int, ma: int, mb: int)
    by (nonlinear_arith)
    requires
        ma == if a >= 0 {
            a
        } else {
            -a
        },
        mb == if b >= 0 {
            b
        } else {
            -b
        },
    ensures
        ma * mb == if a * b >= 0 {
            a * b
        } else {
            -(a * b)
        },
        (a * b < 0) ==> ((a < 0) != (b < 0)),
        ((a < 0) == (b < 0)) ==> a * b >= 0,
        ((a < 0) != (b < 0)) && a * b >= 0 ==> a * b == 0,
{
}

/// Fixed-point product: `a * b` rounded to the nearest grid point.
///
/// The result must fit the scalar range; this is the only machine limit the
/// operation has.
pub fn fixed_mul(a: i64, b: i64) -> (r: i64)
    requires
        in_i64(fmul(a as int, b as int)),
    ensures
        r as int == fmul(a as int, b as int),
{
    let neg: bool = (a < 0) != (b < 0);
    let ma: u128 = abs_u128(a);
    let mb: u128 = abs_u128(b);
    proof {
        lemma_abs_mul(a as int, b as int, ma as int, mb as int);
        assert(ma as int * mb as int <= 0x8000_0000_0000_0000 * 0x8000_0000_0000_0000)
            by (nonlinear_arith)
            requires
                ma <= 0x8000_0000_0000_0000u128,
                mb <= 0x8000_0000_0000_0000u128,
        ;
    }
    let prod: u128 = ma * mb;
    proof {
        lemma_rtn_neg(prod as int, crate::UNIT as int);
    }
    let mag: u128 = udiv_round(prod, crate::UNIT as u128);
    proof {
        let p = (a as int) * (b as int);
        let u = crate::UNIT as int;
        if p < 0 {
            assert(mag as int == rtn(-p, u));
            assert(fmul(a as int, b as int) == -(mag as int));
        } else if neg {
            assert(p == 0);
            assert(mag as int == rtn(0, u));
        }
    }
    let signed: i128 = if neg {
        -(mag as i128)
    } else {
        mag as i128
    };
    signed as i64
}

/// Fixed-point quotient: `a / b` (for `b != 0`) rounded to the nearest grid
/// point.  The result must fit the scalar range.
pub fn fixed_div(a: i64, b: i64) -> (r: i64)
    requires
        b != 0,
        in_i64(fdiv(a as int, b as int)),
    ensures
        r as int == fdiv(a as int, b as int),
{
    let neg: bool = (a < 0) != (b < 0);
    let ma: u128 = abs_u128(a);
    let mb: u128 = abs_u128(b);
    proof {
        assert(ma as int * (crate::UNIT as int) <= 0x8000_0000_0000_0000 * 0x1000000)
            by (nonlinear_arith)
            requires
                ma <= 0x8000_0000_0000_0000u128,
                0 < crate::UNIT < 0x1000000,
        ;
    }
    let num: u128 = ma * (crate::UNIT as u128);
    proof {
        let u = crate::UNIT as int;
        let ai = a as int;
        let bi = b as int;
        assert(num as int == if ai >= 0 {
            ai * u
        } else {
            -(ai * u)
        }) by (nonlinear_arith)
            requires
                u > 0,
                num as int == ma as int * u,
                ma as int == if ai >= 0 {
                    ai
                } else {
                    -ai
                },
        ;
        lemma_rtn_neg(ai * u, mb as int);
        lemma_rtn_neg(-(ai * u), mb as int);
    }
    let mag: u128 = udiv_round(num, mb);
    let signed: i128 = if neg {
        -(mag as i128)
    } else {
        mag as i128
    };
    signed as i64
}

/// Two scalars differ by strictly less than the comparison epsilon: the
/// approximate comparison of the kernel.
pub open spec fn close_strict_spec(a: int, b: int) -> bool {
    -(crate::EPSILON_STEPS as int) < a - b < crate::EPSILON_STEPS
}

/// Whether two scalars differ by strictly less than the comparison
/// epsilon.
pub fn close_strict(a: i64, b: i64) -> (r: bool)
    ensures
        r == close_strict_spec(a as int, b as int),
{
    let d: i128 = a as i128 - b as i128;
    -(crate::EPSILON_STEPS as i128) < d && d < crate::EPSILON_STEPS as i128
}

/// `r` is `num / sqrt(s)` (for `s > 0`) rounded to the nearest integer,
/// ties away from zero.  Stated root-free: both bounds of the half-step
/// window around `r` are squared.
pub open spec fn is_rounded_div_sqrt(num: int, s: int, r: int) -> bool
    recommends
        s > 0,
{
    let mag = if r >= 0 {
        r
    } else {
        -r
    };
    &&& (num >= 0 ==> r >= 0)
    &&& (num <= 0 ==> r <= 0)
    &&& 4 * (num * num) < ((2 * mag + 1) * (2 * mag + 1)) * s
    &&& r == 0 || ((2 * mag - 1) * (2 * mag - 1)) * s <= 4 * (num * num)
}

/// The rounded quotient by a square root is unique.
pub proof fn lemma_rounded_div_sqrt_unique(num: int, s: int, r1: int, r2: int)
    by (nonlinear_arith)
    requires
        s > 0,
        is_rounded_div_sqrt(num, s, r1),
        is_rounded_div_sqrt(num, s, r2),
    ensures
        r1 == r2,
{
}

/// Whether `(2 * rho + 1)^2 * s` exceeds `target`: the scanned bound of
/// the rounded division by a square root.
fn above_window(rho: u128, s: u128, target: u128) -> (r: bool)
    requires
        rho <= 0x1000000,
        s <= 0x800_0000_0000_0000_0000,
    ensures
        r == (((2 * rho as int + 1) * (2 * rho as int + 1)) * s as int > target as int),
{
    let odd: u128 = 2 * rho + 1;
    proof {
        assert(0 < odd as int * odd as int <= 0x2000001 * 0x2000001) by (nonlinear_arith)
            requires
                0 < odd <= 0x2000001u128,
        ;
    }
    let sq: u128 = odd * odd;
    proof {
        assert(sq as int * s as int <= (0x2000001 * 0x2000001) * 0x800_0000_0000_0000_0000)
            by (nonlinear_arith)
            requires
                0 < sq as int <= 0x2000001 * 0x2000001,
                s <= 0x800_0000_0000_0000_0000u128,
        ;
    }
    sq * s > target
}

/// Divides `x` whole units (`x * UNIT`) by the square root of `s`,
/// rounding to the nearest grid step (ties away from zero).  The bound
/// on `s` lets the root-free squared comparisons fit 128-bit arithmetic.
pub fn div_units_by_sqrt(x: i64, s: u128) -> (r: i64)
    requires
        1 <= s <= 0x800_0000_0000_0000_0000,
        (x as int) * (x as int) <= s,
    ensures
        is_rounded_div_sqrt((x as int) * (crate::UNIT as int), s as int, r as int),
{
    let nu: u128 = abs_u128(x) * (crate::UNIT as u128);
    proof {
        lemma_div_sqrt_setup(x as int, s as int, nu as int);
    }
    let target: u128 = 4 * (nu * nu);
    let rho: u128 = if above_window(0, s, target) {
        0
    } else {
        let mut lo: u128 = 0;
        let mut hi: u128 = crate::UNIT as u128;
        proof {
            assert(((2 * hi as int + 1) * (2 * hi as int + 1)) * s as int > target as int)
                by (nonlinear_arith)
                requires
                    hi == crate::UNIT as u128,
                    target as int == 4 * (nu as int * nu as int),
                    nu as int * nu as int <= s as int * ((crate::UNIT as int) * (
                    crate::UNIT as int)),
                    s >= 1,
            ;
        }
        while hi - lo > 1
            invariant
                lo < hi <= crate::UNIT,
                s <= 0x800_0000_0000_0000_0000,
                !(((2 * lo as int + 1) * (2 * lo as int + 1)) * s as int > target as int),
                ((2 * hi as int + 1) * (2 * hi as int + 1)) * s as int > target as int,
            decreases hi - lo,
        {
            let mid: u128 = lo + (hi - lo) / 2;
            if above_window(mid, s, target) {
                hi = mid;
            } else {
                lo = mid;
            }
        }
        hi
    };
    proof {
        lemma_div_sqrt_conclude(x as int, s as int, nu as int, rho as int);
    }
    if x < 0 {
        -(rho as i64)
    } else {
        rho as i64
    }
}

/// The magnitude `nu` of the scaled numerator is small enough for the
/// squared comparisons, and its square is the square of `x * UNIT`.
proof fn lemma_div_sqrt_setup(x: int, s: int, nu: int)
    by (nonlinear_arith)
    requires
        1 <= s <= 0x800_0000_0000_0000_0000,
        x * x <= s,
        nu == (if x >= 0 {
            x
        } else {
            -x
        }) * crate::UNIT,
    ensures
        nu >= 0,
        nu * nu == (x * crate::UNIT) * (x * crate::UNIT),
        nu * nu <= s * ((crate::UNIT as int) * (crate::UNIT as int)),
        4 * (nu * nu) <= u128::MAX,
        nu <= u128::MAX,
{
}

/// The bracket found by the scan is the rounded quotient.
proof fn lemma_div_sqrt_conclude(x: int, s: int, nu: int, rho: int)
    by (nonlinear_arith)
    requires
        s >= 1,
        rho >= 0,
        nu == (if x >= 0 {
            x
        } else {
            -x
        }) * crate::UNIT,
        ((2 * rho + 1) * (2 * rho + 1)) * s > 4 * (nu * nu),
        rho == 0 || !(((2 * (rho - 1) + 1) * (2 * (rho - 1) + 1)) * s > 4 * (nu * nu)),
    ensures
        x >= 0 ==> is_rounded_div_sqrt(x * crate::UNIT, s, rho),
        x < 0 ==> is_rounded_div_sqrt(x * crate::UNIT, s, -rho),
{
}

/// `r` is the square root of `n`, rounded to the nearest integer (ties up).
pub open spec fn is_rounded_sqrt(n: int, r: int) -> bool {
    &&& r >= 0
    &&& 4 * n < (2 * r + 1) * (2 * r + 1)
    &&& r == 0 || (2 * r - 1) * (2 * r - 1) <= 4 * n
}

/// Floor of the square root of a non-negative value, by bisection.
fn usqrt_floor(n: u128) -> (r: u128)
    requires
        n < 0x4000_0000_0000_0000_0000_0000_0000_0000,
    ensures
        r * r <= n,
        n < (r + 1) * (r + 1),
        r < 0x8000_0000_0000_0000,
{
    if n == 0 {
        return 0;
    }
    let mut lo: u128 = 0;
    let mut hi: u128 = 0x8000_0000_0000_0000;
    proof {
        assert(hi * hi == 0x4000_0000_0000_0000_0000_0000_0000_0000) by (nonlinear_arith)
            requires
                hi == 0x8000_0000_0000_0000u128,
        ;
    }
    while hi - lo > 1
        invariant
            lo < hi <= 0x8000_0000_0000_0000,
            lo * lo <= n,
            n < hi * hi,
        decreases hi - lo,
    {
        let mid: u128 = lo + (hi - lo) / 2;
        proof {
            assert(mid * mid < 0x8000_0000_0000_0000 * 0x8000_0000_0000_0000)
                by (nonlinear_arith)
                requires
                    mid < 0x8000_0000_0000_0000u128,
            ;
        }
        if mid * mid <= n {
            lo = mid;
        } else {
            hi = mid;
        }
    }
    lo
}

/// Square root rounded to the nearest integer, ties up.
pub fn rounded_sqrt(n: u128) -> (r: u128)
    requires
        n < 0x4000_0000_0000_0000_0000_0000_0000_0000,
    ensures
        is_rounded_sqrt(n as int, r as int),
{
    let s: u128 = usqrt_floor(n);
    // 4n >= (2s+1)^2 is equivalent to n >= s^2 + s + 1 over the integers.
    proof {
        assert(s * s + s < u128::MAX) by (nonlinear_arith)
            requires
                s < 0x8000_0000_0000_0000u128,
        ;
    }
    if n >= s * s + s + 1 {
        proof {
            let si = s as int;
            assert((2 * (si + 1) + 1) * (2 * (si + 1) + 1) == 4 * ((si + 1) * (si + 1)) + 4 * (si
                + 1) + 1) by (nonlinear_arith);
            assert((2 * (si + 1) - 1) * (2 * (si + 1) - 1) == 4 * (si * si + si) + 1)
                by (nonlinear_arith);
            assert(4 * (n as int) < 4 * (((si + 1) * (si + 1)) + (si + 1)) + 1);
        }
        s + 1
    } else {
        proof {
            let si = s as int;
            assert((2 * si + 1) * (2 * si + 1) == 4 * (si * si + si) + 1) by (nonlinear_arith);
            if s > 0 {
                assert((2 * si - 1) * (2 * si - 1) <= 4 * (si * si)) by (nonlinear_arith)
                    requires
                        si > 0,
                ;
            }
        }
        s
    }
}

} // verus!
