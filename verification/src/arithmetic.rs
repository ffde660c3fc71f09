//! Small numeric helpers: an increment, and the domain of the real square root on
//! IEEE 754 doubles given by their bit patterns.

use vstd::prelude::*;

verus! {

/// `a + 2`, for every `a` up to `i32::MAX - 2`.
pub fn add_two(a: i32) -> (sum: i32)
    requires
        a + 2 <= i32::MAX,
    ensures
        sum == a + 2,
{
    a + 2
}

/// The bit pattern of positive infinity in IEEE 754 double precision.
pub const POSITIVE_INFINITY_BITS: u64 = 0x7ff0_0000_0000_0000;

/// The bit pattern of negative zero in IEEE 754 double precision.
pub const NEGATIVE_ZERO_BITS: u64 = 0x8000_0000_0000_0000;

/// The sign of a double: its top bit, 1 for a set sign.
pub open spec fn sign_bit(bits: u64) -> u64 {
    bits >> 63
}

/// The biased exponent of a double: the eleven bits below the sign.
pub open spec fn exponent_field(bits: u64) -> u64 {
    (bits >> 52) & 0x7ff
}

/// The fraction of a double: its low 52 bits.
pub open spec fn fraction_field(bits: u64) -> u64 {
    bits & 0x000f_ffff_ffff_ffff
}

/// Holds for the patterns that are no number: all exponent bits set and a fraction
/// other than zero.
pub open spec fn is_nan(bits: u64) -> bool {
    exponent_field(bits) == 0x7ff && fraction_field(bits) != 0
}

/// Holds for the two zeros, positive and negative.
pub open spec fn is_zero(bits: u64) -> bool {
    exponent_field(bits) == 0 && fraction_field(bits) == 0
}

/// Holds when the double with bit pattern `bits` compares as at least zero: it is a
/// number, and its sign is clear or it is a zero.
pub open spec fn is_at_least_zero(bits: u64) -> bool {
    !is_nan(bits) && (sign_bit(bits) == 0 || is_zero(bits))
}

/// Decides whether a double, given by its bit pattern, has a real square root.
///
/// Negative numbers and NaNs are refused with a message; zero of either sign, the
/// positive numbers and positive infinity are accepted.
pub fn check_sqrt_operand(bits: u64) -> (checked: Result<(), String>)
    ensures
        checked is Ok <==> is_at_least_zero(bits),
        checked matches Err(message) ==> message@ == "negative floats don't have square roots"@,
{
    assert((bits <= 0x7ff0_0000_0000_0000 || bits == 0x8000_0000_0000_0000) <==> (!(((bits >> 52)
        & 0x7ff) == 0x7ff && (bits & 0x000f_ffff_ffff_ffff) != 0) && ((bits >> 63) == 0 || (((bits
        >> 52) & 0x7ff) == 0 && (bits & 0x000f_ffff_ffff_ffff) == 0)))) by (bit_vector);
    if bits <= POSITIVE_INFINITY_BITS || bits == NEGATIVE_ZERO_BITS {
        Ok(())
    } else {
        Err("negative floats don't have square roots".to_owned())
    }
}

} // verus!
