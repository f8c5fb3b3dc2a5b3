//! IEEE 754 values as bit patterns.
//!
//! A binary64 value is carried as the `u64` that encodes it and a binary32
//! value as the `u32` that encodes it. The encoding is lossless, so a value
//! survives storage here bit for bit, and the few operations that are pure
//! bit manipulation (the constants zero and one, negation) can be given
//! exactly.

use vstd::prelude::*;

verus! {

/// The bit pattern of an IEEE 754 binary64 value.
pub type F64Bits = u64;

/// The bit pattern of an IEEE 754 binary32 value.
pub type F32Bits = u32;

/// Positive zero in binary64.
pub const F64_ZERO: F64Bits = 0;

/// One in binary64: sign 0, biased exponent 1023, fraction 0.
pub const F64_ONE: F64Bits = 0x3FF0_0000_0000_0000;

/// The sign bit of a binary32 pattern.
pub const F32_SIGN: F32Bits = 0x8000_0000;

/// The pattern of the negated value: the same exponent and fraction with the
/// sign bit inverted. This is what IEEE 754 `negate` does to every input,
/// zeros, infinities and NaNs included.
pub open spec fn f32_negated(bits: F32Bits) -> F32Bits {
    bits ^ F32_SIGN
}

/// Negates a binary32 value given by its bit pattern.
pub fn f32_negate(bits: F32Bits) -> (out: F32Bits)
    ensures
        out == f32_negated(bits),
{
    bits ^ F32_SIGN
}

} // verus!
