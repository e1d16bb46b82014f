use geotag::coord::{
    convert_seconds_to_rational, decimal_to_dms, dms_to_decimal, get_direction_and_abs,
    is_negative_ref, DecimalDegrees, Rational, TICKS_PER_DEGREE,
};

fn r(numerator: u32, denominator: u32) -> Rational {
    Rational { numerator, denominator }
}

fn degrees_f64(d: DecimalDegrees) -> f64 {
    d.numerator as f64 / d.denominator as f64
}

const FIVE_DEGREES: i64 = 5 * TICKS_PER_DEGREE as i64;

#[test]
fn hemisphere_positive_longitude_is_east() {
    assert_eq!(decimal_to_dms(FIVE_DEGREES, true).0, "E");
}

#[test]
fn hemisphere_negative_longitude_is_west() {
    assert_eq!(decimal_to_dms(-FIVE_DEGREES, true).0, "W");
}

#[test]
fn hemisphere_positive_latitude_is_north() {
    assert_eq!(decimal_to_dms(FIVE_DEGREES, false).0, "N");
}

#[test]
fn hemisphere_negative_latitude_is_south() {
    assert_eq!(decimal_to_dms(-FIVE_DEGREES, false).0, "S");
}

#[test]
fn zero_is_east_and_north() {
    assert_eq!(get_direction_and_abs(0, true), ("E".to_string(), 0));
    assert_eq!(get_direction_and_abs(0, false), ("N".to_string(), 0));
}

#[test]
fn direction_and_abs_of_negative_value() {
    assert_eq!(get_direction_and_abs(-1234, false), ("S".to_string(), 1234));
}

#[test]
fn south_triple_decodes_negative() {
    let d = dms_to_decimal(&[r(40, 1), r(30, 1), r(0, 10000)], "S");
    assert_eq!(d.numerator * 2, -81 * d.denominator as i128);
    assert_eq!(degrees_f64(d), -40.5);
}

#[test]
fn north_triple_decodes_positive() {
    let d = dms_to_decimal(&[r(40, 1), r(30, 1), r(0, 10000)], "N");
    assert_eq!(d.numerator * 2, 81 * d.denominator as i128);
    assert_eq!(degrees_f64(d), 40.5);
}

#[test]
fn lowercase_west_decodes_negative() {
    let d = dms_to_decimal(&[r(1, 1), r(0, 1), r(0, 1)], "w");
    assert_eq!(degrees_f64(d), -1.0);
}

#[test]
fn empty_triple_decodes_to_zero() {
    let d = dms_to_decimal(&[], "S");
    assert_eq!(d, DecimalDegrees { numerator: 0, denominator: 1 });
    assert_eq!(degrees_f64(d), 0.0);
}

#[test]
fn short_triple_decodes_to_zero() {
    let d = dms_to_decimal(&[r(40, 1), r(30, 1)], "N");
    assert_eq!(d, DecimalDegrees { numerator: 0, denominator: 1 });
}

#[test]
fn mixed_denominators_decode_exactly() {
    // 10/2 degrees + 90/3 minutes + 45/1 seconds = 5 + 0.5 + 0.0125 degrees
    let d = dms_to_decimal(&[r(10, 2), r(90, 3), r(45, 1)], "E");
    assert_eq!(d.denominator, 2 * 3 * 3600);
    assert_eq!(d.numerator * 10000, 55125 * d.denominator as i128);
}

#[test]
fn negative_ref_letters() {
    assert!(is_negative_ref("W"));
    assert!(is_negative_ref("w"));
    assert!(is_negative_ref("S"));
    assert!(is_negative_ref("s"));
    assert!(!is_negative_ref("E"));
    assert!(!is_negative_ref("N"));
    assert!(!is_negative_ref(""));
    assert!(!is_negative_ref("SW"));
}

#[test]
fn seconds_rational_has_fixed_precision() {
    assert_eq!(convert_seconds_to_rational(123456), r(123456, 10000));
}

#[test]
fn encode_splits_degrees_minutes_seconds() {
    // 116 degrees 23 minutes 50.7408 seconds, west
    let ticks: i64 = 116 * 36_000_000 + 23 * 600_000 + 507_408;
    let (code, dms) = decimal_to_dms(-ticks, true);
    assert_eq!(code, "W");
    assert_eq!(dms, vec![r(116, 1), r(23, 1), r(507_408, 10000)]);
}

#[test]
fn codec_round_trip_on_values() {
    for &degrees in &[0.0f64, 39.9087, -33.8688, 116.397428, -179.9999999, 90.0] {
        let ticks = (degrees * TICKS_PER_DEGREE as f64).round() as i64;
        for &is_longitude in &[true, false] {
            let (code, dms) = decimal_to_dms(ticks, is_longitude);
            let d = dms_to_decimal(&dms, &code);
            assert_eq!(d.numerator * TICKS_PER_DEGREE as i128, ticks as i128 * d.denominator as i128);
            assert!((degrees_f64(d) - degrees).abs() <= 2.8e-8);
        }
    }
}

#[test]
fn transform_round_trip_within_tolerance() {
    for &(lon, lat) in &[(116.397428f64, 39.90923f64), (121.4737, 31.2304), (-0.1276, 51.5072)] {
        let (glon, glat) = coordtransform_rs::wgs84_to_gcj02(lon, lat);
        let (wlon, wlat) = coordtransform_rs::gcj02_to_wgs84(glon, glat);
        assert!((wlon - lon).abs() <= 1e-4);
        assert!((wlat - lat).abs() <= 1e-4);
    }
}
