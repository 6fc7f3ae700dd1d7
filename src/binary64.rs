//! The IEEE-754 binary64 encoding: one sign bit, eleven exponent bits and
//! fifty-two fraction bits.

use vstd::prelude::*;

verus! {

/// The sign bit.
pub const SIGN_MASK: u64 = 0x8000_0000_0000_0000;

/// The eleven exponent bits.
pub const EXPONENT_MASK: u64 = 0x7ff0_0000_0000_0000;

/// The fifty-two fraction bits.
pub const FRACTION_MASK: u64 = 0x000f_ffff_ffff_ffff;

/// The encoding of `+0.0`.
pub const POSITIVE_ZERO: u64 = 0;

/// The encoding of `-0.0`.
pub const NEGATIVE_ZERO: u64 = 0x8000_0000_0000_0000;

/// Whether the sign bit is set.
pub open spec fn sign_set(b: u64) -> bool {
    b & 0x8000_0000_0000_0000u64 != 0
}

/// A NaN: all exponent bits set and a fraction other than zero.
pub open spec fn is_nan(b: u64) -> bool {
    b & 0x7ff0_0000_0000_0000u64 == 0x7ff0_0000_0000_0000u64
        && b & 0x000f_ffff_ffff_ffffu64 != 0
}

/// A finite number: not every exponent bit is set (neither NaN nor an
/// infinity).
pub open spec fn is_finite(b: u64) -> bool {
    b & 0x7ff0_0000_0000_0000u64 != 0x7ff0_0000_0000_0000u64
}

/// `+0.0` or `-0.0`: everything but the sign bit is clear.
pub open spec fn is_zero(b: u64) -> bool {
    b & 0x7fff_ffff_ffff_ffffu64 == 0
}

/// The comparison `x >= 0.0`: false for a NaN, true for both zeros and for
/// every other number whose sign bit is clear.
pub open spec fn ge_zero(b: u64) -> bool {
    !is_nan(b) && (!sign_set(b) || is_zero(b))
}

/// Negation `-x`: the sign bit flipped, everything else kept (also for a
/// NaN).
pub open spec fn neg(b: u64) -> u64 {
    b ^ 0x8000_0000_0000_0000u64
}

/// The comparison `x == y`: false where either is a NaN; the two zeros are
/// equal; otherwise equal encodings.
pub open spec fn same_value(a: u64, b: u64) -> bool {
    !is_nan(a) && !is_nan(b) && (a == b || (is_zero(a) && is_zero(b)))
}

/// The comparison `x >= 0.0` on an encoded double.
pub fn is_nonnegative(x: u64) -> (r: bool)
    ensures
        r == ge_zero(x),
{
    let nan = (x & EXPONENT_MASK) == EXPONENT_MASK && (x & FRACTION_MASK) != 0;
    let zero = (x & !SIGN_MASK) == 0;
    let r = !nan && ((x & SIGN_MASK) == 0 || zero);
    assert(!SIGN_MASK == 0x7fff_ffff_ffff_ffffu64) by (bit_vector);
    r
}

} // verus!
