//! Coordinates, held as the bit patterns of IEEE-754 binary64 values.
//!
//! The library decides on a coordinate only whether it is finite and whether
//! it lies below zero; both are read off the bits, so the values travel as
//! `u64` and the program around the library converts with `to_bits` and
//! `from_bits`.
use crate::error::TransformError;
use vstd::prelude::*;

verus! {

/// The weight of the lowest exponent bit of a binary64 pattern.
pub const EXPONENT_UNIT: u64 = 0x10_0000_0000_0000;

/// The exponent field when all of its eleven bits are set (infinities, NaN).
pub const EXPONENT_ALL_ONES: u64 = 0x7ff;

/// The pattern of negative zero: the sign bit alone.
pub const NEGATIVE_ZERO: u64 = 0x8000_0000_0000_0000;

/// The eleven-bit exponent field of a binary64 pattern.
pub open spec fn exponent_field(b: u64) -> u64 {
    (b / EXPONENT_UNIT) % 0x800
}

/// A binary64 value is finite when its exponent bits are not all set.
pub open spec fn is_finite_bits(b: u64) -> bool {
    exponent_field(b) != EXPONENT_ALL_ONES
}

/// A binary64 value is at least zero when its sign bit is clear, or when it
/// is negative zero.
pub open spec fn is_non_negative_bits(b: u64) -> bool {
    b <= NEGATIVE_ZERO
}

/// Whether the binary64 value with pattern `b` is finite.
pub fn finite(b: u64) -> (r: bool)
    ensures
        r == is_finite_bits(b),
{
    (b / EXPONENT_UNIT) % 0x800 != EXPONENT_ALL_ONES
}

/// Whether the binary64 value with pattern `b` is at least zero.
pub fn non_negative(b: u64) -> (r: bool)
    ensures
        r == is_non_negative_bits(b),
{
    b <= NEGATIVE_ZERO
}

/// A point in the plane, by its two coordinates.
#[derive(Clone, Copy, Debug, PartialEq, Eq, Structural)]
pub struct Cartesian {
    /// Bit pattern of the x coordinate.
    pub x_bits: u64,
    /// Bit pattern of the y coordinate.
    pub y_bits: u64,
}

impl Cartesian {
    /// Both coordinates are finite: only such a point is sent.
    pub open spec fn is_finite(self) -> bool {
        is_finite_bits(self.x_bits) && is_finite_bits(self.y_bits)
    }

    pub fn new(x_bits: u64, y_bits: u64) -> (p: Cartesian)
        ensures
            p.x_bits == x_bits,
            p.y_bits == y_bits,
    {
        Cartesian { x_bits, y_bits }
    }

    pub fn check_finite(&self) -> (r: bool)
        ensures
            r == self.is_finite(),
    {
        finite(self.x_bits) && finite(self.y_bits)
    }
}

/// A point in the plane, by its distance from the origin and its angle in
/// radians.
#[derive(Clone, Copy, Debug, PartialEq, Eq, Structural)]
pub struct Polar {
    /// Bit pattern of the radius.
    pub r_bits: u64,
    /// Bit pattern of the angle.
    pub theta_bits: u64,
}

impl Polar {
    /// A well-formed polar value: finite radius and angle, radius at least zero.
    pub open spec fn is_valid(self) -> bool {
        &&& is_finite_bits(self.r_bits)
        &&& is_finite_bits(self.theta_bits)
        &&& is_non_negative_bits(self.r_bits)
    }

    /// Builds a polar value from the two numbers read out of a response body;
    /// numbers that do not make a well-formed value are a decoding failure,
    /// never a partial or default-filled value.
    pub fn from_bits(r_bits: u64, theta_bits: u64) -> (res: Result<Polar, TransformError>)
        ensures
            res is Ok <==> (Polar { r_bits, theta_bits }).is_valid(),
            res matches Ok(p) ==> p.r_bits == r_bits && p.theta_bits == theta_bits,
            res matches Err(e) ==> e == TransformError::DecodingError,
    {
        if finite(r_bits) && finite(theta_bits) && non_negative(r_bits) {
            Ok(Polar { r_bits, theta_bits })
        } else {
            Err(TransformError::DecodingError)
        }
    }
}

} // verus!
