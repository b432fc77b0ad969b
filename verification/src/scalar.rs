//! IEEE-754 binary64 values as opaque bit patterns.
//!
//! The library never adds, multiplies or converts such values; it only
//! classifies them (finite, NaN) and orders them. Ordering follows the
//! IEEE-754 `totalOrder` predicate, which on bit patterns is plain integer
//! arithmetic: it agrees with the usual `<=` on floating-point values
//! everywhere except that it orders `-0.0` strictly below `+0.0` and gives
//! NaN payloads a definite place at the ends of the line.

use vstd::prelude::*;

verus! {

/// An IEEE-754 binary64 value, carried by its bit pattern.
#[derive(Clone, Copy, PartialEq, Eq, Structural, Debug)]
pub struct Binary64 {
    pub bits: u64,
}

/// Bit pattern of `0.0`.
pub const ZERO_BITS: u64 = 0;
/// Bit pattern of `1.0`.
pub const ONE_BITS: u64 = 0x3FF0_0000_0000_0000;
/// Mask of the sign bit.
pub const SIGN_MASK: u64 = 0x8000_0000_0000_0000;
/// Mask of the eleven exponent bits.
pub const EXPONENT_MASK: u64 = 0x7FF0_0000_0000_0000;
/// Mask of the 52 fraction bits.
pub const FRACTION_MASK: u64 = 0x000F_FFFF_FFFF_FFFF;

impl Binary64 {
    /// The exponent field is saturated and the fraction is non-zero.
    pub open spec fn spec_is_nan(self) -> bool {
        self.bits & EXPONENT_MASK == EXPONENT_MASK && self.bits & FRACTION_MASK != 0
    }

    /// The exponent field is not saturated: neither an infinity nor a NaN.
    pub open spec fn spec_is_finite(self) -> bool {
        self.bits & EXPONENT_MASK != EXPONENT_MASK
    }

    /// The sign bit is set.
    pub open spec fn spec_is_sign_negative(self) -> bool {
        self.bits & SIGN_MASK == SIGN_MASK
    }

    /// Key whose unsigned order is the IEEE-754 total order: set the sign
    /// bit of non-negative patterns, complement negative ones.
    pub open spec fn spec_total_key(self) -> u64 {
        if self.bits & SIGN_MASK == SIGN_MASK {
            !self.bits
        } else {
            self.bits | SIGN_MASK
        }
    }

    /// `self` precedes or equals `other` in the IEEE-754 total order.
    pub open spec fn spec_le(self, other: Binary64) -> bool {
        self.spec_total_key() <= other.spec_total_key()
    }

    /// Strict version of [`Binary64::spec_le`].
    pub open spec fn spec_lt(self, other: Binary64) -> bool {
        self.spec_total_key() < other.spec_total_key()
    }

    pub fn zero() -> (r: Binary64)
        ensures
            r.bits == ZERO_BITS,
    {
        Binary64 { bits: ZERO_BITS }
    }

    pub fn one() -> (r: Binary64)
        ensures
            r.bits == ONE_BITS,
    {
        Binary64 { bits: ONE_BITS }
    }

    pub fn is_nan(self) -> (r: bool)
        ensures
            r == self.spec_is_nan(),
    {
        self.bits & EXPONENT_MASK == EXPONENT_MASK && self.bits & FRACTION_MASK != 0
    }

    pub fn is_finite(self) -> (r: bool)
        ensures
            r == self.spec_is_finite(),
    {
        self.bits & EXPONENT_MASK != EXPONENT_MASK
    }

    pub fn is_sign_negative(self) -> (r: bool)
        ensures
            r == self.spec_is_sign_negative(),
    {
        self.bits & SIGN_MASK == SIGN_MASK
    }

    fn total_key(self) -> (k: u64)
        ensures
            k == self.spec_total_key(),
    {
        if self.bits & SIGN_MASK == SIGN_MASK {
            !self.bits
        } else {
            self.bits | SIGN_MASK
        }
    }

    /// Total-order `<=`.
    pub fn le(self, other: Binary64) -> (r: bool)
        ensures
            r == self.spec_le(other),
    {
        self.total_key() <= other.total_key()
    }

    /// Total-order `<`.
    pub fn lt(self, other: Binary64) -> (r: bool)
        ensures
            r == self.spec_lt(other),
    {
        self.total_key() < other.total_key()
    }

    /// The smaller of the two values in the total order; `self` on a tie.
    pub fn min_with(self, other: Binary64) -> (r: Binary64)
        ensures
            r == (if self.spec_le(other) { self } else { other }),
    {
        if self.le(other) { self } else { other }
    }

    /// The larger of the two values in the total order; `self` on a tie.
    pub fn max_with(self, other: Binary64) -> (r: Binary64)
        ensures
            r == (if other.spec_le(self) { self } else { other }),
    {
        if other.le(self) { self } else { other }
    }
}

/// The total order is just that: reflexive, transitive, antisymmetric
/// (distinct bit patterns never compare equal both ways), and total.
pub proof fn lemma_total_order(a: Binary64, b: Binary64, c: Binary64)
    ensures
        a.spec_le(a),
        a.spec_le(b) && b.spec_le(c) ==> a.spec_le(c),
        a.spec_le(b) && b.spec_le(a) ==> a == b,
        a.spec_le(b) || b.spec_le(a),
{
    let x = a.bits;
    let y = b.bits;
    assert(key_of(x) <= key_of(y) && key_of(y) <= key_of(x) ==> x == y) by (bit_vector);
}

/// [`Binary64::spec_total_key`] over a bare pattern, for bit-level proofs.
pub open spec fn key_of(bits: u64) -> u64 {
    if bits & SIGN_MASK == SIGN_MASK {
        !bits
    } else {
        bits | SIGN_MASK
    }
}

} // verus!
