//! Numbers of the language: IEEE-754 binary64 values, held as bit patterns.
//!
//! Whatever can be decided exactly from the bits is decided here: the sign,
//! whether a value is a NaN, negation, equality and order. The operations that
//! round are left to the caller of the scanner, the evaluator and the printer.

use vstd::prelude::*;

verus! {

/// The bit that holds the sign.
pub const SIGN_BIT: u64 = 0x8000_0000_0000_0000;

/// The bit pattern of positive infinity: every pattern whose magnitude lies
/// above it is a NaN.
pub const INFINITY_BITS: u64 = 0x7ff0_0000_0000_0000;

/// An arithmetic operation on two numbers whose result is rounded.
#[derive(Debug, Clone, Copy, PartialEq, Eq, Structural)]
pub enum ArithOp {
    Add,
    Subtract,
    Multiply,
    Divide,
}

/// The bits of a number without its sign.
pub open spec fn magnitude(bits: u64) -> u64 {
    if bits >= SIGN_BIT {
        (bits - SIGN_BIT) as u64
    } else {
        bits
    }
}

/// Whether the bits stand for a NaN.
pub open spec fn is_nan(bits: u64) -> bool {
    magnitude(bits) > INFINITY_BITS
}

/// An integer that orders the numbers that are no NaN as their values are
/// ordered; both zeros have key 0.
pub open spec fn order_key(bits: u64) -> int {
    if bits >= SIGN_BIT {
        -(magnitude(bits) as int)
    } else {
        bits as int
    }
}

/// The number with the opposite sign.
pub open spec fn negated(bits: u64) -> u64 {
    if bits >= SIGN_BIT {
        (bits - SIGN_BIT) as u64
    } else {
        (bits + SIGN_BIT) as u64
    }
}

/// Numeric equality: a NaN equals nothing, the two zeros are equal.
pub open spec fn number_eq(a: u64, b: u64) -> bool {
    !is_nan(a) && !is_nan(b) && order_key(a) == order_key(b)
}

/// Numeric order: false whenever a NaN takes part.
pub open spec fn number_lt(a: u64, b: u64) -> bool {
    !is_nan(a) && !is_nan(b) && order_key(a) < order_key(b)
}

/// Numeric order or equality: false whenever a NaN takes part.
pub open spec fn number_le(a: u64, b: u64) -> bool {
    !is_nan(a) && !is_nan(b) && order_key(a) <= order_key(b)
}

/// Strips the sign from a number.
pub fn abs_bits(bits: u64) -> (m: u64)
    ensures
        m == magnitude(bits),
{
    if bits >= SIGN_BIT {
        bits - SIGN_BIT
    } else {
        bits
    }
}

/// Tells whether a number is a NaN.
pub fn nan(bits: u64) -> (r: bool)
    ensures
        r == is_nan(bits),
{
    abs_bits(bits) > INFINITY_BITS
}

/// Flips the sign of a number. A NaN stays a NaN.
pub fn negate(bits: u64) -> (r: u64)
    ensures
        r == negated(bits),
        magnitude(r) == magnitude(bits),
        (r >= SIGN_BIT) != (bits >= SIGN_BIT),
{
    if bits >= SIGN_BIT {
        bits - SIGN_BIT
    } else {
        bits + SIGN_BIT
    }
}

/// Compares two numbers for equality.
pub fn equal(a: u64, b: u64) -> (r: bool)
    ensures
        r == number_eq(a, b),
{
    if nan(a) || nan(b) {
        false
    } else if a == b {
        true
    } else {
        abs_bits(a) == 0 && abs_bits(b) == 0
    }
}

/// Tells whether the first number is below the second.
pub fn less(a: u64, b: u64) -> (r: bool)
    ensures
        r == number_lt(a, b),
{
    if nan(a) || nan(b) {
        false
    } else if a >= SIGN_BIT {
        if b >= SIGN_BIT {
            abs_bits(a) > abs_bits(b)
        } else {
            abs_bits(a) != 0 || b != 0
        }
    } else {
        b < SIGN_BIT && a < b
    }
}

/// Tells whether the first number is below or equal to the second.
pub fn less_equal(a: u64, b: u64) -> (r: bool)
    ensures
        r == number_le(a, b),
{
    if nan(a) || nan(b) {
        false
    } else if a >= SIGN_BIT {
        if b >= SIGN_BIT {
            abs_bits(a) >= abs_bits(b)
        } else {
            true
        }
    } else if b >= SIGN_BIT {
        a == 0 && abs_bits(b) == 0
    } else {
        a <= b
    }
}

/// Negating twice gives the number back.
pub proof fn lemma_negate_twice(bits: u64)
    ensures
        negated(negated(bits)) == bits,
{
}

/// Equality of numbers is symmetric, and holds of every number with itself
/// but a NaN.
pub proof fn lemma_number_eq_laws(a: u64, b: u64)
    ensures
        number_eq(a, b) == number_eq(b, a),
        number_eq(a, a) == !is_nan(a),
{
}

/// Of two numbers that are no NaN exactly one of below, equal and above holds.
pub proof fn lemma_number_order_total(a: u64, b: u64)
    requires
        !is_nan(a),
        !is_nan(b),
    ensures
        number_lt(a, b) || number_eq(a, b) || number_lt(b, a),
        !(number_lt(a, b) && number_eq(a, b)),
        !(number_lt(a, b) && number_lt(b, a)),
        number_le(a, b) == (number_lt(a, b) || number_eq(a, b)),
{
}

} // verus!
