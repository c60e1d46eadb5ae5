//! Plain resolutions and offsets.
//!
//! Resolutions are pairs of integers. Real-valued quantities (jitter offsets, motion-vector scales,
//! exposures) are only handed on to the GPU runtime and never computed with here, so they are held
//! by their binary32 bit patterns.

use vstd::prelude::*;

verus! {

/// A binary32 value, held by its bit pattern.
#[derive(Clone, Copy, Debug, PartialEq, Eq, Structural)]
pub struct FloatBits {
    /// The sign, exponent and fraction bits, most significant first.
    pub bits: u32,
}

/// The bit pattern of `0.0`.
pub const ZERO_BITS: u32 = 0x0000_0000;

/// The bit pattern of `1.0`.
pub const ONE_BITS: u32 = 0x3f80_0000;

impl FloatBits {
    /// `0.0`.
    pub open spec fn zero_value() -> FloatBits {
        FloatBits { bits: ZERO_BITS }
    }

    /// `1.0`.
    pub open spec fn one_value() -> FloatBits {
        FloatBits { bits: ONE_BITS }
    }

    /// `0.0`.
    pub fn zero() -> (r: FloatBits)
        ensures
            r == FloatBits::zero_value(),
    {
        FloatBits { bits: ZERO_BITS }
    }

    /// `1.0`.
    pub fn one() -> (r: FloatBits)
        ensures
            r == FloatBits::one_value(),
    {
        FloatBits { bits: ONE_BITS }
    }
}

/// A width and a height in pixels.
#[derive(Clone, Copy, Debug, PartialEq, Eq, Structural)]
pub struct UVec2 {
    /// The width.
    pub x: u32,
    /// The height.
    pub y: u32,
}

impl UVec2 {
    /// The resolution `x` by `y`.
    pub fn new(x: u32, y: u32) -> (r: UVec2)
        ensures
            r.x == x,
            r.y == y,
    {
        UVec2 { x, y }
    }

    /// How many pixels a texture of this resolution has.
    pub open spec fn pixel_count(self) -> int {
        self.x * self.y
    }
}

/// A pair of real values.
#[derive(Clone, Copy, Debug, PartialEq, Eq, Structural)]
pub struct Vec2 {
    /// The horizontal component.
    pub x: FloatBits,
    /// The vertical component.
    pub y: FloatBits,
}

impl Vec2 {
    /// `(1.0, 1.0)`.
    pub open spec fn one_value() -> Vec2 {
        Vec2 { x: FloatBits::one_value(), y: FloatBits::one_value() }
    }

    /// `(1.0, 1.0)`.
    pub fn one() -> (r: Vec2)
        ensures
            r == Vec2::one_value(),
    {
        Vec2 { x: FloatBits::one(), y: FloatBits::one() }
    }
}

} // verus!
