//! 32-bit floats as bit patterns.
use vstd::prelude::*;

verus! {

/// A 32-bit IEEE 754 float, held as its bits. Scalars are moved, stored and
/// compared; nothing is computed with them.
#[derive(Clone, Copy, Debug, PartialEq, Eq, Structural)]
pub struct Scalar {
    pub bits: u32,
}

/// A `float3` of the kernel.
#[derive(Clone, Copy, Debug, PartialEq, Eq, Structural)]
pub struct Float3 {
    pub x: Scalar,
    pub y: Scalar,
    pub z: Scalar,
}

/// A `float4` of the kernel.
#[derive(Clone, Copy, Debug, PartialEq, Eq, Structural)]
pub struct Float4 {
    pub x: Scalar,
    pub y: Scalar,
    pub z: Scalar,
    pub w: Scalar,
}

/// A `uint4` of the kernel.
#[derive(Clone, Copy, Debug, PartialEq, Eq, Structural)]
pub struct UInt4 {
    pub x: u32,
    pub y: u32,
    pub z: u32,
    pub w: u32,
}

/// A column-major 4x4 matrix.
#[derive(Clone, Copy, Debug, PartialEq, Eq, Structural)]
pub struct Float4x4 {
    pub c0: Float4,
    pub c1: Float4,
    pub c2: Float4,
    pub c3: Float4,
}

/// The bits of the sign.
pub const SIGN: u32 = 0x8000_0000;

/// The magnitude bits of infinity; any larger magnitude is a NaN.
pub const INFINITY: u32 = 0x7f80_0000;

/// The bits of 1.0.
pub const ONE: u32 = 0x3f80_0000;

impl Scalar {
    /// The bits without the sign.
    pub open spec fn magnitude(self) -> int {
        if self.bits >= SIGN {
            self.bits - SIGN
        } else {
            self.bits as int
        }
    }

    /// Whether these are the bits of a NaN.
    pub open spec fn is_nan(self) -> bool {
        self.magnitude() > INFINITY
    }

    /// An integer that orders the scalars as their values are ordered, with
    /// both zeros equal. It has no meaning for a NaN.
    pub open spec fn order_key(self) -> int {
        if self.bits >= SIGN {
            -self.magnitude()
        } else {
            self.magnitude()
        }
    }

    /// The larger of the scalar and a positive floor; the floor if the scalar
    /// is a NaN.
    pub open spec fn spec_at_least(self, floor: Scalar) -> Scalar {
        if self.is_nan() || self.order_key() < floor.order_key() {
            floor
        } else {
            self
        }
    }

    /// 0.0.
    pub open spec fn spec_zero() -> Scalar {
        Scalar { bits: 0 }
    }

    /// 1.0.
    pub open spec fn spec_one() -> Scalar {
        Scalar { bits: ONE }
    }

    /// The scalar with the given bits.
    pub fn from_bits(bits: u32) -> (scalar: Scalar)
        ensures
            scalar.bits == bits,
    {
        Scalar { bits }
    }

    /// 0.0.
    #[verifier::when_used_as_spec(spec_zero)]
    pub fn zero() -> (scalar: Scalar)
        ensures
            scalar == Scalar::spec_zero(),
    {
        Scalar { bits: 0 }
    }

    /// 1.0.
    #[verifier::when_used_as_spec(spec_one)]
    pub fn one() -> (scalar: Scalar)
        ensures
            scalar == Scalar::spec_one(),
    {
        Scalar { bits: ONE }
    }

    /// Raises the scalar to a positive floor, which also replaces a NaN.
    #[verifier::when_used_as_spec(spec_at_least)]
    pub fn at_least(self, floor: Scalar) -> (raised: Scalar)
        requires
            0 < floor.bits <= INFINITY,
        ensures
            raised == self.spec_at_least(floor),
    {
        if self.bits >= SIGN || self.bits > INFINITY || self.bits < floor.bits {
            floor
        } else {
            self
        }
    }
}

impl Float3 {
    pub open spec fn spec_extend(self, w: Scalar) -> Float4 {
        Float4 { x: self.x, y: self.y, z: self.z, w }
    }

    /// The vector with a fourth component behind it.
    #[verifier::when_used_as_spec(spec_extend)]
    pub fn extend(self, w: Scalar) -> (vector: Float4)
        ensures
            vector == self.spec_extend(w),
    {
        Float4 { x: self.x, y: self.y, z: self.z, w }
    }
}

impl Float4 {
    pub open spec fn spec_zero() -> Float4 {
        Float4 { x: Scalar::zero(), y: Scalar::zero(), z: Scalar::zero(), w: Scalar::zero() }
    }

    /// The zero vector.
    #[verifier::when_used_as_spec(spec_zero)]
    pub fn zero() -> (vector: Float4)
        ensures
            vector == Float4::spec_zero(),
    {
        Float4 { x: Scalar::zero(), y: Scalar::zero(), z: Scalar::zero(), w: Scalar::zero() }
    }
}

impl UInt4 {
    pub open spec fn spec_tag(tag: u32) -> UInt4 {
        UInt4 { x: tag, y: 0, z: 0, w: 0 }
    }

    /// A tag in the first component, zeros behind it.
    #[verifier::when_used_as_spec(spec_tag)]
    pub fn tag(tag: u32) -> (vector: UInt4)
        ensures
            vector == UInt4::spec_tag(tag),
    {
        UInt4 { x: tag, y: 0, z: 0, w: 0 }
    }
}

/// A raised scalar is a number, and not below its floor.
pub proof fn lemma_at_least_floor(scalar: Scalar, floor: Scalar)
    requires
        0 < floor.bits <= INFINITY,
    ensures
        !scalar.spec_at_least(floor).is_nan(),
        scalar.spec_at_least(floor).order_key() >= floor.order_key(),
{
}

/// The larger of a scalar and a positive floor: a number that is not below the
/// floor is kept bit for bit, and the floor takes the place of anything else.
pub proof fn lemma_at_least_is_maximum(scalar: Scalar, floor: Scalar)
    requires
        0 < floor.bits <= 0x7f80_0000,
    ensures
        floor.bits <= scalar.bits <= 0x7f80_0000 ==> scalar.at_least(floor).bits == scalar.bits,
        scalar.bits < floor.bits ==> scalar.at_least(floor).bits == floor.bits,
        scalar.bits > 0x7f80_0000 ==> scalar.at_least(floor).bits == floor.bits,
{
}

/// Extending a vector keeps its components in their places.
pub proof fn lemma_extend_keeps_components(vector: Float3, w: Scalar)
    ensures
        vector.extend(w).x == vector.x,
        vector.extend(w).y == vector.y,
        vector.extend(w).z == vector.z,
        vector.extend(w).w == w,
{
}

/// A tag is found again in the first component, and nothing else is set.
pub proof fn lemma_tag_is_found(tag: u32)
    ensures
        UInt4::tag(tag).x == tag,
        UInt4::tag(tag).y == 0,
        UInt4::tag(tag).z == 0,
        UInt4::tag(tag).w == 0,
{
}

/// All bits of a zero are clear; one is a positive number with exponent 0.
pub proof fn lemma_zero_and_one()
    ensures
        Scalar::zero().bits == 0,
        Scalar::one().bits == 127 * 0x80_0000,
        Float4::zero().x.bits == 0,
        Float4::zero().y.bits == 0,
        Float4::zero().z.bits == 0,
        Float4::zero().w.bits == 0,
{
}

} // verus!
