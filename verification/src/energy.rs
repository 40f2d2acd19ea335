//! Energy unit conversions between electron-volts (eV) and reciprocal
//! centimetres (rcm).
//!
//! Conversion factors are taken from the NIST energy-constant reference.
//! Note that the two constants are not exact reciprocals of each other at
//! the listed precision; both are preserved exactly as published.

use vstd::prelude::*;

use crate::factor::{str_eq, unity, unity_spec, Factor, UnitError};

verus! {

/// The factor taking electron-volts to reciprocal centimetres: 8065.543937.
pub open spec fn ev_to_rcm_spec() -> Factor {
    Factor { mantissa: 8065543937, shift: 6 }
}

/// The factor taking reciprocal centimetres to electron-volts:
/// 1.239841984332e-7.
pub open spec fn rcm_to_ev_spec() -> Factor {
    Factor { mantissa: 1239841984332, shift: 19 }
}

/// Conversion from electron-volts to reciprocal centimetres: scaling by
/// exactly 8065.543937.
pub fn ev_2_rcm() -> (r: Factor)
    ensures
        r == ev_to_rcm_spec(),
{
    Factor { mantissa: 8065543937, shift: 6 }
}

/// Conversion from reciprocal centimetres to electron-volts: scaling by
/// exactly 1.239841984332e-7.
pub fn rcm_2_ev() -> (r: Factor)
    ensures
        r == rcm_to_ev_spec(),
{
    Factor { mantissa: 1239841984332, shift: 19 }
}

/// The table of conversions into reciprocal centimetres: which factor, if
/// any, converts a value expressed in `unit` to reciprocal centimetres.
pub open spec fn to_rcm_spec(unit: Seq<char>) -> Option<Factor> {
    if unit == "rcm"@ {
        Some(unity_spec())
    } else if unit == "eV"@ {
        Some(ev_to_rcm_spec())
    } else {
        None
    }
}

/// The table of conversions into electron-volts: which factor, if any,
/// converts a value expressed in `unit` to electron-volts.
pub open spec fn to_ev_spec(unit: Seq<char>) -> Option<Factor> {
    if unit == "eV"@ {
        Some(unity_spec())
    } else if unit == "rcm"@ {
        Some(rcm_to_ev_spec())
    } else {
        None
    }
}

/// Looks up the conversion from `unit` to reciprocal centimetres.
///
/// Supported unit names are `"rcm"` (identity) and `"eV"`; any other name
/// is rejected with `UnknownUnit`.
pub fn lookup_to_rcm(unit: &str) -> (r: Result<Factor, UnitError>)
    ensures
        to_rcm_spec(unit@) matches Some(f) ==> r == Ok::<Factor, UnitError>(f),
        to_rcm_spec(unit@) is None ==> r == Err::<Factor, UnitError>(UnitError::UnknownUnit),
{
    if str_eq(unit, "rcm") {
        Ok(unity())
    } else if str_eq(unit, "eV") {
        Ok(ev_2_rcm())
    } else {
        Err(UnitError::UnknownUnit)
    }
}

/// Looks up the conversion from `unit` to electron-volts.
///
/// Supported unit names are `"eV"` (identity) and `"rcm"`; any other name
/// is rejected with `UnknownUnit`.
pub fn lookup_to_ev(unit: &str) -> (r: Result<Factor, UnitError>)
    ensures
        to_ev_spec(unit@) matches Some(f) ==> r == Ok::<Factor, UnitError>(f),
        to_ev_spec(unit@) is None ==> r == Err::<Factor, UnitError>(UnitError::UnknownUnit),
{
    if str_eq(unit, "eV") {
        Ok(unity())
    } else if str_eq(unit, "rcm") {
        Ok(rcm_2_ev())
    } else {
        Err(UnitError::UnknownUnit)
    }
}

/// A name that is a key of neither energy table is rejected by both: the
/// lookups return `UnknownUnit` and never a partial result.
pub proof fn lemma_unknown_energy_unit_rejected(unit: Seq<char>)
    requires
        unit != "rcm"@,
        unit != "eV"@,
    ensures
        to_rcm_spec(unit) is None,
        to_ev_spec(unit) is None,
{
}

} // verus!
