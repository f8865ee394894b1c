//! Opaque IEEE-754 single-precision scalars.
//!
//! The viewer's numeric work — trigonometry, normalization, matrix algebra —
//! is performed by the embedding layer. The verified core stores and routes
//! those values as raw 32-bit patterns and makes its decisions on them with
//! exact integer logic: sign, finiteness and ordering of IEEE-754 values are
//! plain functions of the bits, stated and proved here.

use vstd::prelude::*;

verus! {

/// Bit pattern of +0.0.
pub const ZERO_BITS: u32 = 0x0000_0000;

/// Bit pattern of 1.0.
pub const ONE_BITS: u32 = 0x3F80_0000;

/// Bit pattern of +infinity. Any larger magnitude is a NaN payload.
pub const INFINITY_BITS: u32 = 0x7F80_0000;

/// Mask selecting the sign bit.
pub const SIGN_MASK: u32 = 0x8000_0000;

/// Mask selecting exponent and mantissa, the magnitude of the value.
pub const MAGNITUDE_MASK: u32 = 0x7FFF_FFFF;

/// A single-precision floating-point value, carried as its bit pattern.
#[derive(Clone, Copy, Debug, PartialEq, Eq, Structural)]
pub struct Scalar {
    pub bits: u32,
}

impl Scalar {
    /// The exponent-and-mantissa part of the pattern.
    pub open spec fn magnitude(self) -> u32 {
        self.bits & MAGNITUDE_MASK
    }

    /// The sign bit is set (the value is negative, or a negatively signed
    /// zero or NaN).
    pub open spec fn is_sign_negative(self) -> bool {
        self.bits & SIGN_MASK != 0
    }

    /// The pattern encodes no number at all.
    pub open spec fn is_nan(self) -> bool {
        self.magnitude() > INFINITY_BITS
    }

    /// The pattern encodes a finite value strictly greater than zero.
    ///
    /// Positive finite values occupy exactly the patterns strictly between
    /// +0.0 and +infinity, in increasing numeric order.
    pub open spec fn is_positive_finite(self) -> bool {
        0 < self.bits < INFINITY_BITS
    }

    /// An integer key that orders non-NaN values exactly as IEEE-754 does:
    /// the magnitude, negated when the sign bit is set. Both zeros map to
    /// key 0 and so compare equal.
    pub open spec fn order_key(self) -> int {
        if self.is_sign_negative() {
            -(self.magnitude() as int)
        } else {
            self.magnitude() as int
        }
    }

    /// IEEE-754 `>`: false whenever either side is NaN, otherwise the order
    /// of the keys.
    pub open spec fn spec_gt(self, other: Scalar) -> bool {
        &&& !self.is_nan()
        &&& !other.is_nan()
        &&& self.order_key() > other.order_key()
    }

    /// IEEE-754 `<`, the mirror image of [`Scalar::spec_gt`].
    pub open spec fn spec_lt(self, other: Scalar) -> bool {
        other.spec_gt(self)
    }
}

/// Decides IEEE-754 `a > b` from the bit patterns alone.
pub fn scalar_gt(a: Scalar, b: Scalar) -> (r: bool)
    ensures
        r == a.spec_gt(b),
{
    let a_magnitude: u32 = a.bits & MAGNITUDE_MASK;
    let b_magnitude: u32 = b.bits & MAGNITUDE_MASK;
    if a_magnitude > INFINITY_BITS || b_magnitude > INFINITY_BITS {
        false
    } else {
        let a_negative: bool = a.bits & SIGN_MASK != 0;
        let b_negative: bool = b.bits & SIGN_MASK != 0;
        if !a_negative && !b_negative {
            a_magnitude > b_magnitude
        } else if !a_negative && b_negative {
            a_magnitude > 0 || b_magnitude > 0
        } else if a_negative && !b_negative {
            false
        } else {
            a_magnitude < b_magnitude
        }
    }
}

/// Decides IEEE-754 `a < b` from the bit patterns alone.
pub fn scalar_lt(a: Scalar, b: Scalar) -> (r: bool)
    ensures
        r == a.spec_lt(b),
{
    scalar_gt(b, a)
}

/// Decides whether the pattern encodes a finite value strictly greater than
/// zero.
pub fn scalar_is_positive_finite(a: Scalar) -> (r: bool)
    ensures
        r == a.is_positive_finite(),
{
    0 < a.bits && a.bits < INFINITY_BITS
}

} // verus!
