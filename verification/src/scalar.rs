//! Real-valued quantities as bit patterns.
//!
//! Every real number that crosses this library (a coordinate, a colour
//! channel, a matrix entry) is carried as the bit pattern of an IEEE-754
//! single-precision number, held in a `u32`. The library lays such values out
//! and moves them around; it never does arithmetic on them. The one operation
//! it needs, negation, is a flip of the sign bit and therefore exact.

use vstd::prelude::*;

verus! {

/// A point, direction or colour: three single-precision bit patterns.
pub type Vec3 = [u32; 3];

/// A quaternion `(x, y, z, w)` or a homogeneous point.
pub type Vec4 = [u32; 4];

/// A 4x4 matrix as four columns of four entries, the layout shaders read.
pub type Mat4 = [[u32; 4]; 4];

/// The sign bit of a single-precision number.
pub const SIGN_BIT: u32 = 0x8000_0000;

/// Bit pattern of `0.0`.
pub const ZERO: u32 = 0x0000_0000;

/// Bit pattern of `1.0`.
pub const ONE: u32 = 0x3f80_0000;

/// Bit pattern of `-1.0`.
pub const NEG_ONE: u32 = 0xbf80_0000;

/// Bit pattern of `0.5`.
pub const HALF: u32 = 0x3f00_0000;

/// The bit pattern of `-x`, given that of `x`.
pub open spec fn negated(bits: u32) -> u32 {
    bits ^ SIGN_BIT
}

/// Negates a single-precision number given by its bits.
pub fn negate(bits: u32) -> (out: u32)
    ensures
        out == negated(bits),
{
    bits ^ SIGN_BIT
}

/// Negating twice gives the number back, and a number never equals its
/// negation as a bit pattern.
pub proof fn lemma_negated_involution(bits: u32)
    ensures
        negated(negated(bits)) == bits,
        negated(bits) != bits,
{
    assert((bits ^ 0x8000_0000u32) ^ 0x8000_0000u32 == bits) by (bit_vector);
    assert(bits ^ 0x8000_0000u32 != bits) by (bit_vector);
}

} // verus!
