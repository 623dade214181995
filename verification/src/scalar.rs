//! Single-precision numbers and small vectors of them, held as bit patterns.

use vstd::prelude::*;

verus! {

/// A single-precision number, held as its IEEE 754 bit pattern.
///
/// The derived `==` compares bit patterns. To compare as numbers do, where
/// the two zeros are equal and a NaN equals nothing, use
/// [`Scalar::equals`].
#[derive(Clone, Copy, Debug, PartialEq, Eq, Structural)]
pub struct Scalar {
    pub bits: u32,
}

impl Scalar {
    /// The bit pattern without its sign bit.
    pub open spec fn magnitude(self) -> int {
        if self.bits >= 0x8000_0000 {
            self.bits - 0x8000_0000
        } else {
            self.bits as int
        }
    }

    /// Whether the sign bit is set.
    pub open spec fn is_negative(self) -> bool {
        self.bits >= 0x8000_0000
    }

    /// Whether the pattern stands for no number: the exponent is all ones
    /// and the fraction is not zero.
    pub open spec fn spec_is_nan(&self) -> bool {
        self.magnitude() > 0x7f80_0000
    }

    /// Where the number stands on the number line, counted in patterns from
    /// zero. Of two patterns that are numbers, the greater number has the
    /// greater rank, and the two zeros share rank 0.
    pub open spec fn rank(self) -> int {
        if self.is_negative() {
            -self.magnitude()
        } else {
            self.magnitude()
        }
    }

    /// Equality of the numbers: a NaN equals nothing, itself included, and
    /// the two zeros are equal.
    pub open spec fn spec_equals(&self, other: &Scalar) -> bool {
        !self.spec_is_nan() && !other.spec_is_nan() && self.rank() == other.rank()
    }

    /// `self >= other` as numbers: false when either is a NaN.
    pub open spec fn spec_at_least(&self, other: &Scalar) -> bool {
        !self.spec_is_nan() && !other.spec_is_nan() && self.rank() >= other.rank()
    }

    /// The number with the given bit pattern.
    pub fn from_bits(bits: u32) -> (s: Scalar)
        ensures
            s.bits == bits,
    {
        Scalar { bits }
    }

    /// The bit pattern of the number.
    pub fn to_bits(&self) -> (bits: u32)
        ensures
            bits == self.bits,
    {
        self.bits
    }

    /// Positive zero.
    pub fn zero() -> (s: Scalar)
        ensures
            s.bits == 0,
    {
        Scalar { bits: 0 }
    }

    fn signed_rank(&self) -> (r: i64)
        ensures
            r == self.rank(),
    {
        if self.bits >= 0x8000_0000 {
            let magnitude: u32 = self.bits - 0x8000_0000;
            -(magnitude as i64)
        } else {
            self.bits as i64
        }
    }

    #[verifier::when_used_as_spec(spec_is_nan)]
    pub fn is_nan(&self) -> (r: bool)
        ensures
            r == self.spec_is_nan(),
    {
        let magnitude: u32 = if self.bits >= 0x8000_0000 {
            self.bits - 0x8000_0000
        } else {
            self.bits
        };
        magnitude > 0x7f80_0000
    }

    /// Compares as numbers do.
    #[verifier::when_used_as_spec(spec_equals)]
    pub fn equals(&self, other: &Scalar) -> (r: bool)
        ensures
            r == self.spec_equals(other),
    {
        !self.is_nan() && !other.is_nan() && self.signed_rank() == other.signed_rank()
    }

    /// `self >= other` as numbers.
    #[verifier::when_used_as_spec(spec_at_least)]
    pub fn at_least(&self, other: &Scalar) -> (r: bool)
        ensures
            r == self.spec_at_least(other),
    {
        !self.is_nan() && !other.is_nan() && self.signed_rank() >= other.signed_rank()
    }
}

/// A vector of three numbers.
#[derive(Clone, Copy, Debug, PartialEq, Eq, Structural)]
pub struct Vec3 {
    pub x: Scalar,
    pub y: Scalar,
    pub z: Scalar,
}

impl Vec3 {
    /// Equality of the vectors as numbers, component by component.
    pub open spec fn spec_equals(&self, other: &Vec3) -> bool {
        &&& self.x.spec_equals(&other.x)
        &&& self.y.spec_equals(&other.y)
        &&& self.z.spec_equals(&other.z)
    }

    pub fn new(x: Scalar, y: Scalar, z: Scalar) -> (v: Vec3)
        ensures
            v == (Vec3 { x, y, z }),
    {
        Vec3 { x, y, z }
    }

    /// The vector of three positive zeros.
    pub fn zero() -> (v: Vec3)
        ensures
            v == (Vec3 { x: Scalar { bits: 0 }, y: Scalar { bits: 0 }, z: Scalar { bits: 0 } }),
    {
        Vec3 { x: Scalar::zero(), y: Scalar::zero(), z: Scalar::zero() }
    }

    /// Compares as vectors of numbers do.
    #[verifier::when_used_as_spec(spec_equals)]
    pub fn equals(&self, other: &Vec3) -> (r: bool)
        ensures
            r == self.spec_equals(other),
    {
        self.x.equals(&other.x) && self.y.equals(&other.y) && self.z.equals(&other.z)
    }
}

impl View for Vec3 {
    type V = Vec3;

    open spec fn view(&self) -> Vec3 {
        *self
    }
}

/// A vector of four numbers.
#[derive(Clone, Copy, Debug, PartialEq, Eq, Structural)]
pub struct Vec4 {
    pub x: Scalar,
    pub y: Scalar,
    pub z: Scalar,
    pub w: Scalar,
}

impl Vec4 {
    pub fn new(x: Scalar, y: Scalar, z: Scalar, w: Scalar) -> (v: Vec4)
        ensures
            v == (Vec4 { x, y, z, w }),
    {
        Vec4 { x, y, z, w }
    }
}

} // verus!
