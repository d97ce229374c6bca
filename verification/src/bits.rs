//! Predicates on IEEE-754 double-precision bit patterns.
//!
//! The regression core never computes with real numbers; it only ever asks
//! questions about them that are answered exactly by the 64-bit encoding:
//! whether a value is finite, whether it is a NaN, whether it encodes exactly
//! zero or exactly one, and how a non-negative value compares against a
//! positive tolerance. Each predicate below is a spec function together with
//! an executable twin whose contract ties the two together.

use vstd::prelude::*;

verus! {

/// Bit pattern of positive zero.
pub const POS_ZERO_BITS: u64 = 0x0000_0000_0000_0000;
/// Bit pattern of negative zero, which compares equal to zero.
pub const NEG_ZERO_BITS: u64 = 0x8000_0000_0000_0000;
/// Bit pattern of one.
pub const ONE_BITS: u64 = 0x3FF0_0000_0000_0000;
/// Mask of the eleven exponent bits.
pub const EXPONENT_MASK: u64 = 0x7FF0_0000_0000_0000;
/// Mask of the fifty-two fraction bits.
pub const FRACTION_MASK: u64 = 0x000F_FFFF_FFFF_FFFF;
/// Mask of the sign bit.
pub const SIGN_MASK: u64 = 0x8000_0000_0000_0000;

/// A pattern encodes a finite value exactly when its exponent field is not
/// saturated; a saturated exponent means an infinity or a NaN.
pub open spec fn is_finite_bits(b: u64) -> bool {
    b & EXPONENT_MASK != EXPONENT_MASK
}

/// A pattern encodes a NaN exactly when the exponent field is saturated and
/// the fraction field is not zero.
pub open spec fn is_nan_bits(b: u64) -> bool {
    b & EXPONENT_MASK == EXPONENT_MASK && b & FRACTION_MASK != 0
}

/// A pattern compares equal to zero exactly when it is one of the two zero
/// encodings.
pub open spec fn is_zero_bits(b: u64) -> bool {
    b == POS_ZERO_BITS || b == NEG_ZERO_BITS
}

/// A pattern compares equal to one exactly when it is the single encoding of
/// one.
pub open spec fn is_one_bits(b: u64) -> bool {
    b == ONE_BITS
}

/// A valid response entry: the encoded value is exactly zero or exactly one.
pub open spec fn is_zero_or_one_bits(b: u64) -> bool {
    is_zero_bits(b) || is_one_bits(b)
}

/// The sign bit is clear: the encoded value is non-negative (or a NaN whose
/// sign bit happens to be clear).
pub open spec fn sign_clear_bits(b: u64) -> bool {
    b & SIGN_MASK == 0
}

/// A positive, finite, nonzero value — what a usable convergence tolerance
/// must encode.
pub open spec fn is_positive_finite_bits(b: u64) -> bool {
    sign_clear_bits(b) && is_finite_bits(b) && b != POS_ZERO_BITS
}

/// Whether the encoded value of `n` is at least the encoded value of `t`,
/// read directly off the bit patterns, for `t` encoding a positive finite
/// value. Non-negative doubles order exactly as their bit patterns do when
/// read as unsigned integers, so for a non-NaN `n` with a clear sign bit the
/// comparison is an integer comparison; a NaN compares below everything, as
/// the numeric comparison does, and so does any pattern with its sign bit
/// set, since `t` is positive.
pub open spec fn at_least_bits(n: u64, t: u64) -> bool {
    sign_clear_bits(n) && !is_nan_bits(n) && n >= t
}

/// Executable twin of [`is_finite_bits`].
pub fn finite_bits(b: u64) -> (r: bool)
    ensures
        r == is_finite_bits(b),
{
    b & EXPONENT_MASK != EXPONENT_MASK
}

/// Executable twin of [`is_nan_bits`].
pub fn nan_bits(b: u64) -> (r: bool)
    ensures
        r == is_nan_bits(b),
{
    b & EXPONENT_MASK == EXPONENT_MASK && b & FRACTION_MASK != 0
}

/// Executable twin of [`is_zero_or_one_bits`].
pub fn zero_or_one_bits(b: u64) -> (r: bool)
    ensures
        r == is_zero_or_one_bits(b),
{
    b == POS_ZERO_BITS || b == NEG_ZERO_BITS || b == ONE_BITS
}

/// Executable twin of [`is_one_bits`].
pub fn one_bits(b: u64) -> (r: bool)
    ensures
        r == is_one_bits(b),
{
    b == ONE_BITS
}

/// Executable twin of [`is_positive_finite_bits`].
pub fn positive_finite_bits(b: u64) -> (r: bool)
    ensures
        r == is_positive_finite_bits(b),
{
    b & SIGN_MASK == 0 && b & EXPONENT_MASK != EXPONENT_MASK && b != POS_ZERO_BITS
}

/// Executable twin of [`at_least_bits`].
pub fn at_least(n: u64, t: u64) -> (r: bool)
    ensures
        r == at_least_bits(n, t),
{
    n & SIGN_MASK == 0 && !(n & EXPONENT_MASK == EXPONENT_MASK && n & FRACTION_MASK != 0) && n >= t
}

} // verus!
