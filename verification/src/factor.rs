//! Exact decimal scale factors and the errors a table lookup can raise.

use vstd::prelude::*;

verus! {

/// An exact decimal scale factor: the rational number `mantissa / 10^shift`.
///
/// Every conversion in this crate multiplies a value by such a factor, so a
/// `Factor` is a complete description of one conversion function. Keeping the
/// mantissa as an integer and the scale as a power of ten preserves the
/// published constants with full listed precision.
#[derive(Clone, Copy, Debug, PartialEq, Eq, Structural)]
pub struct Factor {
    /// The decimal digits of the constant, as an integer.
    pub mantissa: u64,
    /// How many decimal places to shift: the factor equals
    /// `mantissa / 10^shift`.
    pub shift: u32,
}

/// Why a lookup could not produce a conversion factor.
#[derive(Clone, Debug, PartialEq, Eq)]
pub enum UnitError {
    /// The requested unit name is not a key of the table consulted.
    UnknownUnit,
    /// The metric prefix handed to the bohr-to-metres conversion is not one
    /// of the recognized prefixes; carries the offending string.
    InvalidPrefix(String),
}

/// The identity scaling: exactly one.
pub open spec fn unity_spec() -> Factor {
    Factor { mantissa: 1, shift: 0 }
}

/// Unit conversion: scaling by the identity factor returns the value as is.
pub fn unity() -> (r: Factor)
    ensures
        r == unity_spec(),
{
    Factor { mantissa: 1, shift: 0 }
}

/// Relies on `<str as PartialEq>::eq`: string slices compare equal exactly
/// when their character sequences do.
#[verifier::external_body]
pub(crate) fn str_eq(a: &str, b: &str) -> (r: bool)
    ensures
        r == (a@ == b@),
{
    a == b
}

} // verus!
