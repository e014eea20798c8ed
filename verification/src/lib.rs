//! Integer arithmetic on 32-bit signed integers: addition, subtraction,
//! multiplication and division.
//!
//! Overflow policy: all operations wrap around the two's-complement range
//! of `i32` (silent wrapping, never a panic). Division truncates toward
//! zero; dividing by zero returns [`DivisionError`], and
//! `divide(i32::MIN, -1)` wraps to `i32::MIN` like the other operations.

use vstd::prelude::*;

verus! {

use vstd::arithmetic::div_mod::{
    lemma_div_is_ordered_by_denominator,
    lemma_div_nonincreasing,
    lemma_div_pos_is_pos,
    lemma_fundamental_div_mod,
    lemma_mod_pos_bound,
};
use vstd::math::abs;

/// The two's-complement value of the mathematical integer `x` reduced
/// into the range of `i32`: the unique `w` with
/// `i32::MIN <= w <= i32::MAX` and `w == x` modulo `2^32`.
pub open spec fn wrap32(x: int) -> int {
    if x % 0x1_0000_0000 > i32::MAX {
        x % 0x1_0000_0000 - 0x1_0000_0000
    } else {
        x % 0x1_0000_0000
    }
}

/// The quotient of `a` and `b` under truncation toward zero: the
/// fractional part of the exact quotient is discarded, so
/// `div_trunc(-7, 2) == -3` rather than `-4`.
pub open spec fn div_trunc(a: int, b: int) -> int
    recommends
        b != 0,
{
    if a >= 0 && b > 0 {
        a / b
    } else if a < 0 && b < 0 {
        (-a) / (-b)
    } else if a < 0 {
        -((-a) / b)
    } else {
        -(a / (-b))
    }
}

/// The error of [`divide`]: the divisor was zero.
#[derive(Clone, Copy, Debug, PartialEq, Eq, Structural)]
pub struct DivisionError;

/// Wrapping 32-bit addition of `left` and `right`.
pub fn sum(left: i32, right: i32) -> (r: i32)
    ensures
        r == wrap32(left + right),
{
    left.wrapping_add(right)
}

/// Wrapping 32-bit subtraction of `right` from `left`.
pub fn subtract(left: i32, right: i32) -> (r: i32)
    ensures
        r == wrap32(left - right),
{
    left.wrapping_sub(right)
}

/// Wrapping 32-bit multiplication of `left` and `right`.
pub fn multiply(left: i32, right: i32) -> (r: i32)
    ensures
        r == wrap32(left * right),
{
    left.wrapping_mul(right)
}

/// 32-bit integer division of `left` by `right`, truncated toward zero.
///
/// Fails with [`DivisionError`] exactly when `right` is zero. The one
/// quotient outside the range of `i32`, that of `i32::MIN` and `-1`,
/// wraps to `i32::MIN`.
pub fn divide(left: i32, right: i32) -> (r: Result<i32, DivisionError>)
    ensures
        right == 0 <==> r is Err,
        right == 0 ==> r == Err::<i32, DivisionError>(DivisionError),
        right != 0 ==> (r matches Ok(q) && q == wrap32(div_trunc(left as int, right as int))),
{
    if right == 0 {
        Err(DivisionError)
    } else if left == i32::MIN && right == -1 {
        Ok(i32::MIN)
    } else {
        proof {
            let x = left as int;
            let d = right as int;
            if x > 0 && d > 0 {
                lemma_div_pos_is_pos(x, d);
                lemma_div_nonincreasing(x, d);
            } else if x < 0 && d < 0 {
                lemma_div_pos_is_pos(-x, -d);
                lemma_div_nonincreasing(-x, -d);
                if x == i32::MIN {
                    lemma_div_is_ordered_by_denominator(-x, 2, -d);
                }
            } else if x < 0 {
                lemma_div_pos_is_pos(-x, d);
                lemma_div_nonincreasing(-x, d);
            } else if x > 0 {
                lemma_div_pos_is_pos(x, -d);
                lemma_div_nonincreasing(x, -d);
            }
        }
        Ok(left.checked_div(right).unwrap())
    }
}

/// Wrapping changes nothing on a value already in the range of `i32`:
/// the operations are exact whenever their mathematical result is
/// representable.
pub proof fn lemma_wrap32_in_range(x: int)
    requires
        i32::MIN <= x <= i32::MAX,
    ensures
        wrap32(x) == x,
{
}

/// Identities: adding zero to a 32-bit value, subtracting zero from it,
/// or multiplying it by one leaves it unchanged, and multiplying it by
/// zero gives zero, with no wrapping in any of these.
pub proof fn lemma_identities(a: i32)
    ensures
        wrap32(a + 0) == a as int,
        wrap32(a - 0) == a as int,
        wrap32(a * 1) == a as int,
        wrap32(a * 0) == 0,
{
}

/// Truncation toward zero, pinned algebraically: for `b != 0` the
/// quotient `q == div_trunc(a, b)` leaves a remainder `a - b * q` that
/// is smaller than `b` in magnitude and is zero or has the sign of `a`.
pub proof fn lemma_div_trunc_characterization(a: int, b: int)
    requires
        b != 0,
    ensures
        abs(a - b * div_trunc(a, b)) < abs(b),
        a >= 0 ==> a - b * div_trunc(a, b) >= 0,
        a <= 0 ==> a - b * div_trunc(a, b) <= 0,
{
    if a >= 0 && b > 0 {
        lemma_fundamental_div_mod(a, b);
        lemma_mod_pos_bound(a, b);
    } else if a < 0 && b < 0 {
        lemma_fundamental_div_mod(-a, -b);
        lemma_mod_pos_bound(-a, -b);
        assert((-b) * ((-a) / (-b)) == -(b * ((-a) / (-b)))) by (nonlinear_arith);
    } else if a < 0 {
        lemma_fundamental_div_mod(-a, b);
        lemma_mod_pos_bound(-a, b);
        assert(b * (-((-a) / b)) == -(b * ((-a) / b))) by (nonlinear_arith);
    } else {
        lemma_fundamental_div_mod(a, -b);
        lemma_mod_pos_bound(a, -b);
        assert(b * (-(a / (-b))) == (-b) * (a / (-b))) by (nonlinear_arith);
    }
}

/// Wrapping addition is commutative: `sum(a, b)` and `sum(b, a)` agree
/// for all 32-bit values.
pub proof fn lemma_sum_commutes(a: i32, b: i32)
    ensures
        wrap32(a + b) == wrap32(b + a),
{
}

/// Wrapping multiplication is commutative: `multiply(a, b)` and
/// `multiply(b, a)` agree for all 32-bit values.
pub proof fn lemma_multiply_commutes(a: i32, b: i32)
    ensures
        wrap32(a * b) == wrap32(b * a),
{
}

} // verus!
