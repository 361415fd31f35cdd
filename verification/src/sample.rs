//! Samples and their order.
//!
//! A sample is a 32-bit IEEE 754 binary floating-point number, held as its
//! bit pattern: one sign bit, eight exponent bits, twenty-three fraction
//! bits. The order defined here is the order of the numbers the patterns
//! stand for: a NaN is neither below nor above anything, and the two zeros
//! are equal.

use vstd::prelude::*;

verus! {

/// Bit pattern of the largest finite sample.
pub const LARGEST_FINITE: u32 = 0x7F7F_FFFF;

/// Bit pattern of the smallest (most negative) finite sample.
pub const SMALLEST_FINITE: u32 = 0xFF7F_FFFF;

/// Bit pattern of positive zero.
pub const ZERO: u32 = 0;

/// The sign bit of a pattern.
pub const SIGN_BIT: u32 = 0x8000_0000;

/// Magnitude of the two infinities; every larger magnitude is a NaN.
pub const INFINITY_MAGNITUDE: u32 = 0x7F80_0000;

/// The pattern without its sign bit.
pub open spec fn magnitude(bits: u32) -> int {
    if bits >= SIGN_BIT {
        bits - SIGN_BIT
    } else {
        bits as int
    }
}

/// Whether the pattern stands for no number.
pub open spec fn is_nan(bits: u32) -> bool {
    magnitude(bits) > INFINITY_MAGNITUDE
}

/// An integer that orders the patterns as the numbers they stand for are
/// ordered. Both zeros have rank 0.
pub open spec fn rank(bits: u32) -> int {
    if bits >= SIGN_BIT {
        -magnitude(bits)
    } else {
        magnitude(bits)
    }
}

/// `a < b` as numbers: false as soon as either is a NaN.
pub open spec fn less_than(a: u32, b: u32) -> bool {
    !is_nan(a) && !is_nan(b) && rank(a) < rank(b)
}

/// `a <= b` as numbers: false as soon as either is a NaN.
pub open spec fn at_most(a: u32, b: u32) -> bool {
    !is_nan(a) && !is_nan(b) && rank(a) <= rank(b)
}

/// `a > b` as numbers: false as soon as either is a NaN.
pub open spec fn greater_than(a: u32, b: u32) -> bool {
    less_than(b, a)
}

/// Whether the pattern stands for no number.
pub fn nan(bits: u32) -> (r: bool)
    ensures
        r == is_nan(bits),
{
    if bits >= SIGN_BIT {
        bits - SIGN_BIT > INFINITY_MAGNITUDE
    } else {
        bits > INFINITY_MAGNITUDE
    }
}

/// The rank of a pattern.
pub fn rank_of(bits: u32) -> (r: i64)
    ensures
        r == rank(bits),
{
    if bits >= SIGN_BIT {
        -((bits - SIGN_BIT) as i64)
    } else {
        bits as i64
    }
}

/// `a < b` as numbers.
pub fn lt(a: u32, b: u32) -> (r: bool)
    ensures
        r == less_than(a, b),
{
    !nan(a) && !nan(b) && rank_of(a) < rank_of(b)
}

/// `a > b` as numbers.
pub fn gt(a: u32, b: u32) -> (r: bool)
    ensures
        r == greater_than(a, b),
{
    lt(b, a)
}

/// `a >= b` as numbers: false as soon as either is a NaN.
pub open spec fn at_least(a: u32, b: u32) -> bool {
    at_most(b, a)
}

/// No sample is below itself, and the order is transitive.
pub proof fn lemma_less_than_is_strict(a: u32, b: u32, c: u32)
    ensures
        !less_than(a, a),
        less_than(a, b) ==> !less_than(b, a),
        less_than(a, b) && less_than(b, c) ==> less_than(a, c),
{
}

/// Two numbers that are not NaNs are comparable: one is below the other, or
/// they are equal as numbers (they have the same rank).
pub proof fn lemma_numbers_are_comparable(a: u32, b: u32)
    requires
        !is_nan(a),
        !is_nan(b),
    ensures
        less_than(a, b) || less_than(b, a) || rank(a) == rank(b),
        rank(a) == rank(b) ==> a == b || magnitude(a) == 0 && magnitude(b) == 0,
{
}

} // verus!
