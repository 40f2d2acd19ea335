//! Length unit conversions from bohr radii to metres (with metric-prefix
//! scaling) or to angstrom.
//!
//! The bohr radius is taken from the NIST constants reference.

use vstd::prelude::*;

use crate::factor::{str_eq, unity, unity_spec, Factor, UnitError};

verus! {

/// The metric prefixes the bohr-to-metres conversion recognizes.
#[derive(Clone, Copy, Debug, PartialEq, Eq, Structural)]
pub enum Prefix {
    /// `"pm"`: picometres, 1e-12 of a metre.
    Pico,
    /// `"nm"`: nanometres, 1e-9 of a metre.
    Nano,
    /// `"mu"`: micrometres, 1e-6 of a metre.
    Micro,
    /// `"mm"`: millimetres, 1e-3 of a metre.
    Milli,
    /// `"cm"`: centimetres, 1e-2 of a metre.
    Centi,
    /// `"m"`: plain metres, no rescaling.
    Base,
}

/// Which prefix, if any, the string names. Exactly six strings are
/// recognized; everything else is an invalid prefix.
pub open spec fn prefix_of_spec(prefix: Seq<char>) -> Option<Prefix> {
    if prefix == "pm"@ {
        Some(Prefix::Pico)
    } else if prefix == "nm"@ {
        Some(Prefix::Nano)
    } else if prefix == "mu"@ {
        Some(Prefix::Micro)
    } else if prefix == "mm"@ {
        Some(Prefix::Milli)
    } else if prefix == "cm"@ {
        Some(Prefix::Centi)
    } else if prefix == "m"@ {
        Some(Prefix::Base)
    } else {
        None
    }
}

/// The power of ten by which a prefix divides the metre: a value in metres
/// times `10^prefix_exponent_spec(p)` is the same length in `p`-metres.
pub open spec fn prefix_exponent_spec(p: Prefix) -> u32 {
    match p {
        Prefix::Pico => 12,
        Prefix::Nano => 9,
        Prefix::Micro => 6,
        Prefix::Milli => 3,
        Prefix::Centi => 2,
        Prefix::Base => 0,
    }
}

/// The bohr radius in metres: 5.29177210903e-11.
pub open spec fn bohr_radius_spec() -> Factor {
    Factor { mantissa: 529177210903, shift: 22 }
}

/// The factor taking bohr radii to `p`-scaled metres: the bohr radius in
/// metres, divided by the prefix's scale.
pub open spec fn metres_factor_spec(p: Prefix) -> Factor {
    Factor {
        mantissa: bohr_radius_spec().mantissa,
        shift: (bohr_radius_spec().shift - prefix_exponent_spec(p)) as u32,
    }
}

/// The factor taking bohr radii to angstrom: 5.29177210903e-1.
pub open spec fn ang_factor_spec() -> Factor {
    Factor { mantissa: 529177210903, shift: 12 }
}

/// Parses a metric prefix by exact string match.
pub fn parse_prefix(prefix: &str) -> (r: Option<Prefix>)
    ensures
        r == prefix_of_spec(prefix@),
{
    if str_eq(prefix, "pm") {
        Some(Prefix::Pico)
    } else if str_eq(prefix, "nm") {
        Some(Prefix::Nano)
    } else if str_eq(prefix, "mu") {
        Some(Prefix::Micro)
    } else if str_eq(prefix, "mm") {
        Some(Prefix::Milli)
    } else if str_eq(prefix, "cm") {
        Some(Prefix::Centi)
    } else if str_eq(prefix, "m") {
        Some(Prefix::Base)
    } else {
        None
    }
}

/// The power of ten by which a prefix divides the metre.
pub fn prefix_exponent(p: Prefix) -> (r: u32)
    ensures
        r == prefix_exponent_spec(p),
{
    match p {
        Prefix::Pico => 12,
        Prefix::Nano => 9,
        Prefix::Micro => 6,
        Prefix::Milli => 3,
        Prefix::Centi => 2,
        Prefix::Base => 0,
    }
}

/// Conversion from bohr radii to metres, rescaled by the requested metric
/// prefix.
///
/// Returns the factor `bohr radius / prefix scale`; a prefix that is not
/// one of the six recognized strings is rejected with `InvalidPrefix`,
/// carrying the offending string.
pub fn bohr_to_metres(prefix: &str) -> (r: Result<Factor, UnitError>)
    ensures
        prefix_of_spec(prefix@) matches Some(p) ==> r == Ok::<Factor, UnitError>(
            metres_factor_spec(p),
        ),
        prefix_of_spec(prefix@) is None ==> (r matches Err(
            UnitError::InvalidPrefix(s),
        ) && s@ == prefix@),
{
    match parse_prefix(prefix) {
        Some(p) => {
            let exponent = prefix_exponent(p);
            Ok(Factor { mantissa: 529177210903, shift: 22 - exponent })
        },
        None => Err(UnitError::InvalidPrefix(prefix.to_owned())),
    }
}

/// Conversion from bohr radii to angstrom: the nanometre factor times ten,
/// which is exactly 5.29177210903e-1.
pub fn bohr_to_ang() -> (r: Factor)
    ensures
        r == ang_factor_spec(),
{
    proof {
        reveal_strlit("pm");
        reveal_strlit("nm");
        assert("nm"@ != "pm"@) by {
            assert("nm"@[0] != "pm"@[0]);
        }
        assert(prefix_of_spec("nm"@) == Some(Prefix::Nano));
    }
    let nano = match bohr_to_metres("nm") {
        Ok(f) => f,
        Err(_) => unity(),
    };
    Factor { mantissa: nano.mantissa, shift: nano.shift - 1 }
}

/// A length conversion selected by unit name, still awaiting the value and
/// the metric prefix.
#[derive(Clone, Copy, Debug, PartialEq, Eq, Structural)]
pub enum LengthConversion {
    /// Leave the value in bohr radii: the identity, whatever the prefix.
    Identity,
    /// Scale bohr radii to metres, rescaled by the requested prefix.
    ToMetres,
    /// Scale bohr radii to angstrom; the prefix carries no meaning here and
    /// is ignored, an asymmetry kept for calling-convention uniformity with
    /// the metre conversion.
    ToAngstrom,
}

/// The table of conversions from bohr radii towards metres: which
/// conversion, if any, the unit name selects.
pub open spec fn bohr_to_metres_table_spec(unit: Seq<char>) -> Option<LengthConversion> {
    if unit == "bohr"@ {
        Some(LengthConversion::Identity)
    } else if unit == "m"@ {
        Some(LengthConversion::ToMetres)
    } else {
        None
    }
}

/// The table of conversions from bohr radii towards angstrom: which
/// conversion, if any, the unit name selects.
pub open spec fn bohr_to_ang_table_spec(unit: Seq<char>) -> Option<LengthConversion> {
    if unit == "bohr"@ {
        Some(LengthConversion::Identity)
    } else if unit == "ang"@ {
        Some(LengthConversion::ToAngstrom)
    } else {
        None
    }
}

/// The factor a length conversion yields for a given prefix.
///
/// The identity and angstrom conversions do not read the prefix at all;
/// only the metre conversion rejects an unrecognized one.
pub open spec fn length_factor_spec(conv: LengthConversion, prefix: Seq<char>) -> Option<Factor> {
    match conv {
        LengthConversion::Identity => Some(unity_spec()),
        LengthConversion::ToMetres => match prefix_of_spec(prefix) {
            Some(p) => Some(metres_factor_spec(p)),
            None => None,
        },
        LengthConversion::ToAngstrom => Some(ang_factor_spec()),
    }
}

/// Looks up the conversion from bohr radii to (prefix-scaled) metres.
///
/// Supported unit names are `"bohr"` (identity) and `"m"`; any other name
/// is rejected with `UnknownUnit`.
pub fn lookup_bohr_to_metres(unit: &str) -> (r: Result<LengthConversion, UnitError>)
    ensures
        bohr_to_metres_table_spec(unit@) matches Some(c) ==> r == Ok::<
            LengthConversion,
            UnitError,
        >(c),
        bohr_to_metres_table_spec(unit@) is None ==> r == Err::<LengthConversion, UnitError>(
            UnitError::UnknownUnit,
        ),
{
    if str_eq(unit, "bohr") {
        Ok(LengthConversion::Identity)
    } else if str_eq(unit, "m") {
        Ok(LengthConversion::ToMetres)
    } else {
        Err(UnitError::UnknownUnit)
    }
}

/// Looks up the conversion from bohr radii to angstrom.
///
/// Supported unit names are `"bohr"` (identity) and `"ang"`; any other
/// name is rejected with `UnknownUnit`.
pub fn lookup_bohr_to_ang(unit: &str) -> (r: Result<LengthConversion, UnitError>)
    ensures
        bohr_to_ang_table_spec(unit@) matches Some(c) ==> r == Ok::<LengthConversion, UnitError>(
            c,
        ),
        bohr_to_ang_table_spec(unit@) is None ==> r == Err::<LengthConversion, UnitError>(
            UnitError::UnknownUnit,
        ),
{
    if str_eq(unit, "bohr") {
        Ok(LengthConversion::Identity)
    } else if str_eq(unit, "ang") {
        Ok(LengthConversion::ToAngstrom)
    } else {
        Err(UnitError::UnknownUnit)
    }
}

/// Applies a selected length conversion to a metric prefix, yielding the
/// scale factor for the value.
pub fn length_factor(conv: LengthConversion, prefix: &str) -> (r: Result<Factor, UnitError>)
    ensures
        length_factor_spec(conv, prefix@) matches Some(f) ==> r == Ok::<Factor, UnitError>(f),
        length_factor_spec(conv, prefix@) is None ==> (r matches Err(
            UnitError::InvalidPrefix(s),
        ) && s@ == prefix@),
{
    match conv {
        LengthConversion::Identity => Ok(unity()),
        LengthConversion::ToMetres => bohr_to_metres(prefix),
        LengthConversion::ToAngstrom => Ok(bohr_to_ang()),
    }
}

/// The identity conversion ignores its prefix entirely: whatever strings
/// are passed, it yields the identity factor, so the value comes back
/// unchanged.
pub proof fn lemma_identity_ignores_prefix(prefix_a: Seq<char>, prefix_b: Seq<char>)
    ensures
        length_factor_spec(LengthConversion::Identity, prefix_a) == length_factor_spec(
            LengthConversion::Identity,
            prefix_b,
        ),
        length_factor_spec(LengthConversion::Identity, prefix_a) == Some(unity_spec()),
{
}

/// The angstrom conversion ignores its prefix entirely: whatever strings
/// are passed, it yields the fixed bohr-to-angstrom factor.
pub proof fn lemma_angstrom_ignores_prefix(prefix_a: Seq<char>, prefix_b: Seq<char>)
    ensures
        length_factor_spec(LengthConversion::ToAngstrom, prefix_a) == length_factor_spec(
            LengthConversion::ToAngstrom,
            prefix_b,
        ),
        length_factor_spec(LengthConversion::ToAngstrom, prefix_a) == Some(ang_factor_spec()),
{
}

/// A prefix that is none of the six recognized strings is rejected by the
/// metre conversion: no factor is produced for it.
pub proof fn lemma_unknown_prefix_rejected(prefix: Seq<char>)
    requires
        prefix != "pm"@,
        prefix != "nm"@,
        prefix != "mu"@,
        prefix != "mm"@,
        prefix != "cm"@,
        prefix != "m"@,
    ensures
        length_factor_spec(LengthConversion::ToMetres, prefix) is None,
{
}

/// A name that is a key of neither length table is rejected by both: the
/// lookups return `UnknownUnit` and never a partial result.
pub proof fn lemma_unknown_length_unit_rejected(unit: Seq<char>)
    requires
        unit != "bohr"@,
        unit != "m"@,
        unit != "ang"@,
    ensures
        bohr_to_metres_table_spec(unit) is None,
        bohr_to_ang_table_spec(unit) is None,
{
}

} // verus!
