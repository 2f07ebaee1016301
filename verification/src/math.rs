//! Numbers and small vectors as the GPU reads them.
//!
//! A `Scalar` is a single-precision number held by its IEEE-754 bit pattern.
//! The library stores, copies and compares such numbers; it never computes
//! with them.

use vstd::prelude::*;

verus! {

/// Bit pattern of the number zero.
pub const ZERO_BITS: u32 = 0;

/// Bit pattern of the number one.
pub const ONE_BITS: u32 = 0x3F80_0000;

/// Bit pattern of one half.
pub const HALF_BITS: u32 = 0x3F00_0000;

/// Bit pattern of minus one half.
pub const NEG_HALF_BITS: u32 = 0xBF00_0000;

/// A single-precision number, held by its bit pattern.
#[derive(Clone, Copy, Debug, PartialEq, Eq, Structural)]
pub struct Scalar {
    pub bits: u32,
}

impl Scalar {
    /// The number with the bit pattern `bits`.
    pub fn from_bits(bits: u32) -> (s: Scalar)
        ensures
            s.bits == bits,
    {
        Scalar { bits }
    }

    /// The bit pattern of this number.
    pub fn to_bits(self) -> (bits: u32)
        ensures
            bits == self.bits,
    {
        self.bits
    }

    /// The number zero.
    pub fn zero() -> (s: Scalar)
        ensures
            s.bits == ZERO_BITS,
    {
        Scalar { bits: ZERO_BITS }
    }

    /// The number one.
    pub fn one() -> (s: Scalar)
        ensures
            s.bits == ONE_BITS,
    {
        Scalar { bits: ONE_BITS }
    }
}

/// A vector of two numbers.
#[derive(Clone, Copy, Debug, PartialEq, Eq, Structural)]
pub struct Vec2 {
    pub x: Scalar,
    pub y: Scalar,
}

/// The vector `(x, y)`.
pub fn vec2(x: Scalar, y: Scalar) -> (v: Vec2)
    ensures
        v.x == x,
        v.y == y,
{
    Vec2 { x, y }
}

/// A vector of four numbers.
#[derive(Clone, Copy, Debug, PartialEq, Eq, Structural)]
pub struct Vec4 {
    pub x: Scalar,
    pub y: Scalar,
    pub z: Scalar,
    pub w: Scalar,
}

/// A 4x4 matrix, held by its four columns.
#[derive(Clone, Copy, Debug, PartialEq, Eq, Structural)]
pub struct Mat4 {
    pub x_axis: Vec4,
    pub y_axis: Vec4,
    pub z_axis: Vec4,
    pub w_axis: Vec4,
}

/// An RGBA colour.
#[derive(Clone, Copy, Debug, PartialEq, Eq, Structural)]
pub struct Color {
    pub r: Scalar,
    pub g: Scalar,
    pub b: Scalar,
    pub a: Scalar,
}

impl Color {
    /// Opaque white.
    pub fn white() -> (c: Color)
        ensures
            c == (Color { r: one_spec(), g: one_spec(), b: one_spec(), a: one_spec() }),
    {
        Color { r: Scalar::one(), g: Scalar::one(), b: Scalar::one(), a: Scalar::one() }
    }

    /// Opaque red.
    pub fn red() -> (c: Color)
        ensures
            c == (Color { r: one_spec(), g: zero_spec(), b: zero_spec(), a: one_spec() }),
    {
        Color { r: Scalar::one(), g: Scalar::zero(), b: Scalar::zero(), a: Scalar::one() }
    }

    /// Opaque green.
    pub fn green() -> (c: Color)
        ensures
            c == (Color { r: zero_spec(), g: one_spec(), b: zero_spec(), a: one_spec() }),
    {
        Color { r: Scalar::zero(), g: Scalar::one(), b: Scalar::zero(), a: Scalar::one() }
    }

    /// Opaque blue.
    pub fn blue() -> (c: Color)
        ensures
            c == (Color { r: zero_spec(), g: zero_spec(), b: one_spec(), a: one_spec() }),
    {
        Color { r: Scalar::zero(), g: Scalar::zero(), b: Scalar::one(), a: Scalar::one() }
    }
}

/// The number zero, in contracts.
pub open spec fn zero_spec() -> Scalar {
    Scalar { bits: ZERO_BITS }
}

/// The number one, in contracts.
pub open spec fn one_spec() -> Scalar {
    Scalar { bits: ONE_BITS }
}

} // verus!
