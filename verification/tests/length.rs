use unit_conversion::factor::{Factor, UnitError};
use unit_conversion::length::{
    bohr_to_ang, bohr_to_metres, length_factor, lookup_bohr_to_ang, lookup_bohr_to_metres,
    parse_prefix, Prefix,
};

/// Renders an exact decimal factor as the nearest `f64`.
fn factor_to_f64(f: Factor) -> f64 {
    format!("{}e-{}", f.mantissa, f.shift).parse().unwrap()
}

/// Looks up `unit` in the bohr-to-metres table and converts `value` with
/// the given metric prefix.
fn to_metres(unit: &str, value: f64, prefix: &str) -> Result<f64, UnitError> {
    let conv = lookup_bohr_to_metres(unit)?;
    let factor = length_factor(conv, prefix)?;
    Ok(value * factor_to_f64(factor))
}

/// Looks up `unit` in the bohr-to-angstrom table and converts `value`.
fn to_ang(unit: &str, value: f64, prefix: &str) -> Result<f64, UnitError> {
    let conv = lookup_bohr_to_ang(unit)?;
    let factor = length_factor(conv, prefix)?;
    Ok(value * factor_to_f64(factor))
}

#[test]
fn convert_bohr_to_metres() {
    let converted = to_metres("m", 1.0_f64, "m").unwrap();
    let expected = 5.291_772_109_03e-11;
    assert_eq!(converted, expected);
    let converted = to_metres("m", 1.0_f64, "nm").unwrap();
    let expected = 5.291_772_109_03e-2;
    assert_eq!(converted, expected);
}

#[test]
fn convert_bohr_to_ang() {
    let converted = to_ang("ang", 1.0_f64, "ang").unwrap();
    let expected = 5.291_772_109_03e-1;
    assert_eq!(converted, expected);
}

#[test]
fn every_prefix_scales_exactly() {
    assert_eq!(to_metres("m", 1.0, "pm").unwrap(), 52.917_721_090_3);
    assert_eq!(to_metres("m", 1.0, "nm").unwrap(), 5.291_772_109_03e-2);
    assert_eq!(to_metres("m", 1.0, "mu").unwrap(), 5.291_772_109_03e-5);
    assert_eq!(to_metres("m", 1.0, "mm").unwrap(), 5.291_772_109_03e-8);
    assert_eq!(to_metres("m", 1.0, "cm").unwrap(), 5.291_772_109_03e-9);
    assert_eq!(to_metres("m", 1.0, "m").unwrap(), 5.291_772_109_03e-11);
}

#[test]
fn prefixes_parse_by_exact_match() {
    assert_eq!(parse_prefix("pm"), Some(Prefix::Pico));
    assert_eq!(parse_prefix("nm"), Some(Prefix::Nano));
    assert_eq!(parse_prefix("mu"), Some(Prefix::Micro));
    assert_eq!(parse_prefix("mm"), Some(Prefix::Milli));
    assert_eq!(parse_prefix("cm"), Some(Prefix::Centi));
    assert_eq!(parse_prefix("m"), Some(Prefix::Base));
    assert_eq!(parse_prefix("km"), None);
    assert_eq!(parse_prefix("PM"), None);
    assert_eq!(parse_prefix(""), None);
}

#[test]
fn identity_ignores_prefix() {
    for prefix in ["m", "km", "", "anything at all"] {
        assert_eq!(to_metres("bohr", 1.0, prefix).unwrap(), 1.0);
        assert_eq!(to_ang("bohr", 3.5, prefix).unwrap(), 3.5);
    }
}

#[test]
fn angstrom_ignores_prefix() {
    for prefix in ["ang", "km", "", "anything at all"] {
        assert_eq!(to_ang("ang", 1.0, prefix).unwrap(), 5.291_772_109_03e-1);
    }
}

#[test]
fn angstrom_factor_is_ten_nanometre_factors() {
    let ang = bohr_to_ang();
    assert_eq!(ang, Factor { mantissa: 529_177_210_903, shift: 12 });
    let nano = bohr_to_metres("nm").unwrap();
    assert_eq!(factor_to_f64(ang), factor_to_f64(nano) * 10.0);
}

#[test]
fn unknown_length_unit_is_rejected() {
    assert_eq!(lookup_bohr_to_metres("parsec"), Err(UnitError::UnknownUnit));
    assert_eq!(lookup_bohr_to_ang("parsec"), Err(UnitError::UnknownUnit));
    assert_eq!(lookup_bohr_to_metres("ang"), Err(UnitError::UnknownUnit));
    assert_eq!(lookup_bohr_to_ang("m"), Err(UnitError::UnknownUnit));
}

#[test]
fn unknown_prefix_is_rejected() {
    assert_eq!(
        to_metres("m", 1.0, "km"),
        Err(UnitError::InvalidPrefix(String::from("km")))
    );
    assert_eq!(
        bohr_to_metres("feet"),
        Err(UnitError::InvalidPrefix(String::from("feet")))
    );
}
