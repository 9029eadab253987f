//! The ordering of IEEE-754 single-precision scalars, stated on their raw
//! 32-bit patterns.
//!
//! For values that are not NaN, the single-precision `<` order is decided by
//! the sign bit and the remaining 31 bits (the magnitude): values of equal
//! sign are ordered by magnitude (in reverse for negatives), every negative
//! value except negative zero lies below every non-negative value, and the
//! two zeroes are equal. Infinities and subnormals need no special case,
//! since their magnitudes sort with the rest. A NaN compares below nothing
//! and above nothing.

use vstd::prelude::*;

verus! {

/// Bit pattern of the single-precision value 0.0.
pub const BITS_ZERO: u32 = 0x0000_0000;

/// Bit pattern of the single-precision value 1.0.
pub const BITS_ONE: u32 = 0x3F80_0000;

/// Bit pattern of the single-precision machine epsilon, 2^-23.
pub const BITS_EPSILON: u32 = 0x3400_0000;

/// Bit pattern of the negated single-precision machine epsilon, -(2^-23).
pub const BITS_NEG_EPSILON: u32 = 0xB400_0000;

/// The magnitude of a scalar: its bit pattern with the sign bit cleared.
pub open spec fn magnitude(bits: u32) -> u32 {
    bits & 0x7FFF_FFFF
}

/// A scalar is negative when its sign bit is set.
pub open spec fn is_negative(bits: u32) -> bool {
    bits & 0x8000_0000 != 0
}

/// A scalar is a NaN when its exponent field is all ones and its mantissa
/// is nonzero, which is exactly when its magnitude exceeds the magnitude
/// of infinity.
pub open spec fn is_nan(bits: u32) -> bool {
    magnitude(bits) > 0x7F80_0000
}

/// The strict `<` order of two single-precision scalars given by their bit
/// patterns.
pub open spec fn lt(a: u32, b: u32) -> bool {
    if is_nan(a) || is_nan(b) {
        false
    } else if is_negative(a) {
        if is_negative(b) {
            magnitude(b) < magnitude(a)
        } else {
            magnitude(a) != 0 || magnitude(b) != 0
        }
    } else {
        if is_negative(b) {
            false
        } else {
            magnitude(a) < magnitude(b)
        }
    }
}

/// Decides the strict `<` order of two scalars given by their bit patterns.
pub fn lt_bits(a: u32, b: u32) -> (r: bool)
    ensures
        r == lt(a, b),
{
    let mag_a: u32 = a & 0x7FFF_FFFF;
    let mag_b: u32 = b & 0x7FFF_FFFF;
    if mag_a > 0x7F80_0000 || mag_b > 0x7F80_0000 {
        false
    } else if a & 0x8000_0000 != 0 {
        if b & 0x8000_0000 != 0 {
            mag_b < mag_a
        } else {
            mag_a != 0 || mag_b != 0
        }
    } else {
        if b & 0x8000_0000 != 0 {
            false
        } else {
            mag_a < mag_b
        }
    }
}

} // verus!
