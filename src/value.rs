use vstd::prelude::*;

verus! {

/// One materialized cell.
///
/// A 64-bit float is held as its IEEE-754 bit pattern; only finite floats
/// are ever materialized, since JSON has no encoding for NaN or infinities.
#[derive(Clone, Debug, PartialEq)]
pub enum Value {
    Text(String),
    Int32(i32),
    Float64(u64),
    Boolean(bool),
    Null,
}

/// Mask of the exponent field of an IEEE-754 double, after shifting out the
/// fraction bits.
pub const EXPONENT_MASK: u64 = 0x7ff;

/// Number of fraction bits of an IEEE-754 double.
pub const FRACTION_BITS: u64 = 52;

/// A double is finite exactly when its exponent field is not all ones.
pub open spec fn is_finite_bits(bits: u64) -> bool {
    (bits >> FRACTION_BITS) & EXPONENT_MASK != EXPONENT_MASK
}

/// Tells whether the double with the given bit pattern is finite.
pub fn float_is_finite(bits: u64) -> (r: bool)
    ensures
        r == is_finite_bits(bits),
{
    (bits >> FRACTION_BITS) & EXPONENT_MASK != EXPONENT_MASK
}

} // verus!
