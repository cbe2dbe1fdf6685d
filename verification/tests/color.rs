use jp2k::color_convert::resolve_color_space;
use jp2k::{ColorSpace, ColorSpaceValue, Error};

#[test]
fn from_i32_decodes_every_known_code() {
    assert_eq!(ColorSpaceValue::from_i32(1), ColorSpaceValue::SRGB);
    assert_eq!(ColorSpaceValue::from_i32(2), ColorSpaceValue::GRAY);
    assert_eq!(ColorSpaceValue::from_i32(3), ColorSpaceValue::SYCC);
    assert_eq!(ColorSpaceValue::from_i32(4), ColorSpaceValue::EYCC);
    assert_eq!(ColorSpaceValue::from_i32(5), ColorSpaceValue::CMYK);
    assert_eq!(ColorSpaceValue::from_i32(0), ColorSpaceValue::Unspecified);
}

#[test]
fn from_i32_keeps_unknown_codes() {
    assert_eq!(ColorSpaceValue::from_i32(-1), ColorSpaceValue::Unknown(-1));
    assert_eq!(ColorSpaceValue::from_i32(99), ColorSpaceValue::Unknown(99));
}

#[test]
fn determined_maps_concrete_values_only() {
    assert_eq!(ColorSpaceValue::SRGB.determined(), Some(ColorSpace::SRGB));
    assert_eq!(ColorSpaceValue::GRAY.determined(), Some(ColorSpace::GRAY));
    assert_eq!(ColorSpaceValue::SYCC.determined(), Some(ColorSpace::SYCC));
    assert_eq!(ColorSpaceValue::EYCC.determined(), Some(ColorSpace::EYCC));
    assert_eq!(ColorSpaceValue::CMYK.determined(), Some(ColorSpace::CMYK));
    assert_eq!(ColorSpaceValue::Unspecified.determined(), None);
    assert_eq!(ColorSpaceValue::Unknown(-1).determined(), None);
}

#[test]
fn unspecified_without_fallback_fails_as_unspecified() {
    let r = resolve_color_space(ColorSpaceValue::Unspecified, None);
    assert_eq!(r, Err(Error::UnspecifiedColorSpace));
    assert_eq!(r.unwrap_err().message(), "Unspecified color space.");
}

#[test]
fn unspecified_with_fallback_yields_the_fallback() {
    let r = resolve_color_space(ColorSpaceValue::Unspecified, Some(ColorSpace::SRGB));
    assert_eq!(r, Ok(ColorSpace::SRGB));
}

#[test]
fn unknown_without_fallback_fails_as_unknown() {
    let r = resolve_color_space(ColorSpaceValue::Unknown(42), None);
    assert_eq!(r, Err(Error::UnknownColorSpace));
    assert_eq!(r.unwrap_err().message(), "Unknown color space.");
}

#[test]
fn unknown_with_fallback_yields_the_fallback() {
    let r = resolve_color_space(ColorSpaceValue::Unknown(42), Some(ColorSpace::GRAY));
    assert_eq!(r, Ok(ColorSpace::GRAY));
}

#[test]
fn concrete_report_wins_over_fallback() {
    let r = resolve_color_space(ColorSpaceValue::SYCC, Some(ColorSpace::SRGB));
    assert_eq!(r, Ok(ColorSpace::SYCC));
}

#[test]
fn srgb_conversion_passes_samples_through() {
    let out = ColorSpace::SRGB.convert_to_rgba_raw([1, 2, 3, 4]);
    assert_eq!(out, [1, 2, 3, 4]);
}

#[test]
fn gray_conversion_broadcasts_with_opaque_alpha() {
    let out = ColorSpace::GRAY.convert_to_rgba_raw([7, 0, 0, 255]);
    assert_eq!(out, [7, 7, 7, 255]);
}
