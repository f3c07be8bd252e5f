use vstd::prelude::*;

verus! {

/// The IEEE-754 bit pattern of a single-precision float.
///
/// Scene values are only moved around, never computed with, so their bit
/// patterns stand for them exactly; `F32Bits(0)` is `+0.0`.
#[derive(Debug, Clone, Copy, PartialEq, Eq, Structural)]
pub struct F32Bits(pub u32);

impl F32Bits {
    /// The bit pattern of `+0.0`.
    pub fn zero() -> (z: F32Bits)
        ensures
            z == F32Bits(0),
    {
        F32Bits(0)
    }
}

/// The bit pattern of `1.0`.
pub const F32_ONE_BITS: u32 = 0x3f80_0000;

/// The bit pattern of `-1.0`.
pub const F32_NEG_ONE_BITS: u32 = 0xbf80_0000;

/// Whether the bit pattern is that of `-1.0`, `+0.0` or `1.0`.
pub open spec fn is_unit_or_zero(b: F32Bits) -> bool {
    b.0 == F32_ONE_BITS || b.0 == F32_NEG_ONE_BITS || b.0 == 0
}

/// The integer that the bit pattern of `-1.0`, `+0.0` or `1.0` encodes.
pub open spec fn unit_value(b: F32Bits) -> int
    recommends
        is_unit_or_zero(b),
{
    if b.0 == F32_ONE_BITS {
        1
    } else if b.0 == F32_NEG_ONE_BITS {
        -1
    } else {
        0
    }
}

/// A three-component single-precision vector, each component by its bit pattern.
#[derive(Debug, Clone, Copy, PartialEq, Eq, Structural)]
pub struct Vec3Bits {
    pub x: F32Bits,
    pub y: F32Bits,
    pub z: F32Bits,
}

impl Vec3Bits {
    pub open spec fn spec_zero() -> Vec3Bits {
        Vec3Bits { x: F32Bits(0), y: F32Bits(0), z: F32Bits(0) }
    }

    /// The zero vector `(0.0, 0.0, 0.0)`.
    pub fn zero() -> (v: Vec3Bits)
        ensures
            v == Vec3Bits::spec_zero(),
    {
        Vec3Bits { x: F32Bits::zero(), y: F32Bits::zero(), z: F32Bits::zero() }
    }

    pub fn new(x: F32Bits, y: F32Bits, z: F32Bits) -> (v: Vec3Bits)
        ensures
            v == (Vec3Bits { x, y, z }),
    {
        Vec3Bits { x, y, z }
    }
}

} // verus!
