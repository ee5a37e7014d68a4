//! A decimal fixed-point number: the verified number type of this crate.
use vstd::prelude::*;
use crate::scalar::Scalar;

verus! {

/// How many raw units make one: six places after the decimal point.
pub const SCALE: i64 = 1_000_000;

/// The greatest count that has a fixed-point number.
pub const MAX_COUNT: u128 = 9_223_372_036_854;

/// A signed decimal number with six places after the point, held as a count
/// of millionths, or the undefined value.
///
/// Arithmetic is exact where the exact result is a whole number of
/// millionths that fits in 64 bits. Products and quotients are rounded
/// toward zero to the nearest millionth. A result that does not fit, a
/// division by zero, and any operation on the undefined value give the
/// undefined value. The undefined value is neither less nor greater than
/// anything.
#[derive(Clone, Copy, Debug, PartialEq, Eq, Structural)]
pub enum Fixed {
    Undefined,
    Value(i64),
}

/// The number of `raw` millionths, undefined if that does not fit.
pub open spec fn fixed_of(raw: int) -> Fixed {
    if i64::MIN <= raw <= i64::MAX {
        Fixed::Value(raw as i64)
    } else {
        Fixed::Undefined
    }
}

/// The absolute value of `a`.
pub open spec fn magnitude(a: int) -> int {
    if a < 0 {
        -a
    } else {
        a
    }
}

/// The quotient of `a` by `b`, rounded toward zero. Meant for `b != 0`.
pub open spec fn quotient_toward_zero(a: int, b: int) -> int {
    if (a < 0) != (b < 0) {
        -(magnitude(a) / magnitude(b))
    } else {
        magnitude(a) / magnitude(b)
    }
}

/// The number of `raw` millionths, undefined if that does not fit.
fn fixed_from(raw: i128) -> (r: Fixed)
    ensures
        r == fixed_of(raw as int),
{
    if raw < i64::MIN as i128 || raw > i64::MAX as i128 {
        Fixed::Undefined
    } else {
        Fixed::Value(raw as i64)
    }
}

/// Divides, rounding toward zero.
fn divide_toward_zero(a: i128, b: i128) -> (q: i128)
    requires
        b != 0,
        i128::MIN < a,
        i128::MIN < b,
    ensures
        q == quotient_toward_zero(a as int, b as int),
{
    let ma: u128 = if a < 0 {
        (-a) as u128
    } else {
        a as u128
    };
    let mb: u128 = if b < 0 {
        (-b) as u128
    } else {
        b as u128
    };
    let mq: u128 = ma / mb;
    assert(mq <= ma) by (nonlinear_arith)
        requires
            mq == ma / mb,
            mb >= 1,
    ;
    if (a < 0) != (b < 0) {
        -(mq as i128)
    } else {
        mq as i128
    }
}

impl Scalar for Fixed {
    open spec fn undefined_spec() -> Self {
        Fixed::Undefined
    }

    open spec fn from_count_spec(n: u128) -> Self {
        fixed_of(n * SCALE)
    }

    open spec fn plus_spec(self, rhs: Self) -> Self {
        match (self, rhs) {
            (Fixed::Value(a), Fixed::Value(b)) => fixed_of(a + b),
            _ => Fixed::Undefined,
        }
    }

    open spec fn minus_spec(self, rhs: Self) -> Self {
        match (self, rhs) {
            (Fixed::Value(a), Fixed::Value(b)) => fixed_of(a - b),
            _ => Fixed::Undefined,
        }
    }

    open spec fn times_spec(self, rhs: Self) -> Self {
        match (self, rhs) {
            (Fixed::Value(a), Fixed::Value(b)) => fixed_of(
                quotient_toward_zero(a * b, SCALE as int),
            ),
            _ => Fixed::Undefined,
        }
    }

    open spec fn over_spec(self, rhs: Self) -> Self {
        match (self, rhs) {
            (Fixed::Value(a), Fixed::Value(b)) => if b == 0 {
                Fixed::Undefined
            } else {
                fixed_of(quotient_toward_zero(a * SCALE, b as int))
            },
            _ => Fixed::Undefined,
        }
    }

    open spec fn less_spec(self, rhs: Self) -> bool {
        match (self, rhs) {
            (Fixed::Value(a), Fixed::Value(b)) => a < b,
            _ => false,
        }
    }

    fn undefined() -> (r: Self) {
        Fixed::Undefined
    }

    fn from_count(n: u128) -> (r: Self) {
        if n > MAX_COUNT {
            assert(n * SCALE > i64::MAX) by (nonlinear_arith)
                requires
                    n >= MAX_COUNT + 1,
                    SCALE == 1_000_000,
            ;
            Fixed::Undefined
        } else {
            assert(0 <= n * SCALE <= i64::MAX) by (nonlinear_arith)
                requires
                    0 <= n <= MAX_COUNT,
                    SCALE == 1_000_000,
                    MAX_COUNT == 9_223_372_036_854,
            ;
            Fixed::Value((n as i64) * SCALE)
        }
    }

    fn plus(self, rhs: Self) -> (r: Self) {
        match (self, rhs) {
            (Fixed::Value(a), Fixed::Value(b)) => fixed_from(a as i128 + b as i128),
            _ => Fixed::Undefined,
        }
    }

    fn minus(self, rhs: Self) -> (r: Self) {
        match (self, rhs) {
            (Fixed::Value(a), Fixed::Value(b)) => fixed_from(a as i128 - b as i128),
            _ => Fixed::Undefined,
        }
    }

    fn times(self, rhs: Self) -> (r: Self) {
        match (self, rhs) {
            (Fixed::Value(a), Fixed::Value(b)) => {
                assert(-0x4000_0000_0000_0000_0000_0000_0000_0000 <= a * b
                    <= 0x4000_0000_0000_0000_0000_0000_0000_0000) by (nonlinear_arith)
                    requires
                        -0x8000_0000_0000_0000 <= a <= 0x8000_0000_0000_0000,
                        -0x8000_0000_0000_0000 <= b <= 0x8000_0000_0000_0000,
                ;
                fixed_from(divide_toward_zero((a as i128) * (b as i128), SCALE as i128))
            },
            _ => Fixed::Undefined,
        }
    }

    fn over(self, rhs: Self) -> (r: Self) {
        match (self, rhs) {
            (Fixed::Value(a), Fixed::Value(b)) => {
                if b == 0 {
                    Fixed::Undefined
                } else {
                    assert(-0x4000_0000_0000_0000_0000_0000_0000_0000 <= a * SCALE
                        <= 0x4000_0000_0000_0000_0000_0000_0000_0000) by (nonlinear_arith)
                        requires
                            -0x8000_0000_0000_0000 <= a <= 0x8000_0000_0000_0000,
                            SCALE == 1_000_000,
                    ;
                    fixed_from(divide_toward_zero((a as i128) * (SCALE as i128), b as i128))
                }
            },
            _ => Fixed::Undefined,
        }
    }

    fn less(self, rhs: Self) -> (r: bool) {
        match (self, rhs) {
            (Fixed::Value(a), Fixed::Value(b)) => a < b,
            _ => false,
        }
    }
}

} // verus!
