use vstd::prelude::*;

verus! {

/// A numeric value kept as the exact digit sequences it was written with:
/// a base, the whole-part digit magnitudes and the fractional-part digit
/// magnitudes, most significant first.
pub struct Number {
    base: Base,
    whole: Vec<u8>,
    fractional: Vec<u8>,
}

/// The radix a numeric value is written in.
pub enum Base {
    Decimal,
    Hexadecimal,
    Binary,
    Octal,
}

} // verus!
