//! Coordinate conversion and datum classification.

use boring_parser::boring_structs_110::{Boring110, LngLat, Title};
use boring_parser::coordinate::{GeoCoordinate, GeoLocation, GeodeticDatum};
use boring_parser::dms::DmsCoordinate;

/// Nano-arcseconds per degree, as a float, for reading results in tests.
const DEG: f64 = 3_600_000_000_000.0;

fn dms(degree: &str, minute: &str, second: &str) -> DmsCoordinate {
    DmsCoordinate {
        degree: Some(degree.to_string()),
        minute: Some(minute.to_string()),
        second: Some(second.to_string()),
    }
}

#[test]
fn test_dms_to_decimal() {
    let dms = DmsCoordinate {
        degree: Some("139".to_string()),
        minute: Some("45".to_string()),
        second: Some("0".to_string()),
    };
    let decimal = dms.to_decimal().unwrap() as f64 / DEG;
    assert!((decimal - 139.75).abs() < 0.0001);
}

#[test]
fn test_dms_to_decimal_with_seconds() {
    let dms = DmsCoordinate {
        degree: Some("139".to_string()),
        minute: Some("41".to_string()),
        second: Some("30".to_string()),
    };
    let decimal = dms.to_decimal().unwrap() as f64 / DEG;
    // 139 + 41/60 + 30/3600 = 139.69166...
    assert!((decimal - 139.69166666).abs() < 0.0001);
}

#[test]
fn test_dms_to_decimal_none() {
    let dms = DmsCoordinate {
        degree: None,
        minute: Some("45".to_string()),
        second: Some("0".to_string()),
    };
    assert!(dms.to_decimal().is_none());
}

#[test]
fn test_geodetic_datum_from_code() {
    assert_eq!(GeodeticDatum::from_code("00"), GeodeticDatum::Tokyo);
    assert_eq!(GeodeticDatum::from_code("01"), GeodeticDatum::Jgd2000);
    assert_eq!(GeodeticDatum::from_code("02"), GeodeticDatum::Jgd2011);
    assert_eq!(GeodeticDatum::from_code("99"), GeodeticDatum::Unknown);
}

#[test]
fn dms_decimal_is_exact() {
    // (139, 45, 0) is exactly 139.75 degrees: 503_100 arcseconds.
    let v = dms("139", "45", "0").to_decimal().unwrap();
    assert_eq!(v, 503_100 * 1_000_000_000);
}

#[test]
fn dms_fractional_seconds_are_exact() {
    // 0.5 seconds contribute exactly half a second of arc.
    let v = dms("0", "0", "0.5").to_decimal().unwrap();
    assert_eq!(v, 500_000_000);
}

#[test]
fn dms_missing_minute_or_second_is_absent() {
    let no_minute = DmsCoordinate {
        degree: Some("139".to_string()),
        minute: None,
        second: Some("0".to_string()),
    };
    assert!(no_minute.to_decimal().is_none());
    let no_second = DmsCoordinate {
        degree: Some("139".to_string()),
        minute: Some("45".to_string()),
        second: None,
    };
    assert!(no_second.to_decimal().is_none());
}

#[test]
fn dms_malformed_component_is_absent() {
    assert!(dms("13x", "45", "0").to_decimal().is_none());
    assert!(dms("", "45", "0").to_decimal().is_none());
    assert!(dms("139.", "45", "0").to_decimal().is_none());
    assert!(dms(".5", "45", "0").to_decimal().is_none());
    assert!(dms("1.2.3", "45", "0").to_decimal().is_none());
}

#[test]
fn datum_classification_is_total() {
    assert_eq!(GeodeticDatum::from_code(""), GeodeticDatum::Unknown);
    assert_eq!(GeodeticDatum::from_code("   "), GeodeticDatum::Unknown);
    assert_eq!(GeodeticDatum::from_code(" 00 "), GeodeticDatum::Tokyo);
    assert_eq!(GeodeticDatum::from_code("0"), GeodeticDatum::Unknown);
    assert_eq!(GeodeticDatum::from_code("020"), GeodeticDatum::Unknown);
}

#[test]
fn epsg_codes() {
    assert_eq!(GeodeticDatum::Tokyo.epsg_code(), Some("EPSG:4301"));
    assert_eq!(GeodeticDatum::Jgd2000.epsg_code(), Some("EPSG:4612"));
    assert_eq!(GeodeticDatum::Jgd2011.epsg_code(), Some("EPSG:6668"));
    assert_eq!(GeodeticDatum::Wgs84.epsg_code(), Some("EPSG:4326"));
    assert_eq!(GeodeticDatum::Unknown.epsg_code(), None);
}

#[test]
fn geo_location_decimal_and_datum() {
    let loc = GeoLocation {
        longitude: dms("139", "46", "0"),
        latitude: dms("35", "40", "0"),
        geodetic_system: Some("01".to_string()),
    };
    let (lng, lat) = loc.to_decimal().unwrap();
    assert!((lng as f64 / DEG - 139.766666).abs() < 0.0001);
    assert!((lat as f64 / DEG - 35.666666).abs() < 0.0001);
    assert_eq!(loc.datum(), GeodeticDatum::Jgd2000);

    let no_code = GeoLocation { geodetic_system: None, ..loc };
    assert_eq!(no_code.datum(), GeodeticDatum::Unknown);
}

#[test]
fn geo_location_absent_when_component_missing() {
    let loc = GeoLocation {
        longitude: dms("139", "46", "0"),
        latitude: DmsCoordinate { degree: None, minute: None, second: None },
        geodetic_system: Some("00".to_string()),
    };
    assert!(loc.to_decimal().is_none());
    assert!(loc.start_wgs84_conversion().is_none());
}

#[test]
fn record_geo_location_reads_title_fields() {
    let record = Boring110 {
        title: Title {
            longitude_latitude: LngLat {
                longitude_degree: Some("139".to_string()),
                longitude_minute: Some("46".to_string()),
                longitude_second: Some("0".to_string()),
                latitude_degree: Some("35".to_string()),
                latitude_minute: Some("40".to_string()),
                latitude_second: Some("0".to_string()),
                geodetic_system: Some("02".to_string()),
                ..Default::default()
            },
            ..Default::default()
        },
        ..Default::default()
    };
    let loc = record.geo_location();
    assert_eq!(loc.datum(), GeodeticDatum::Jgd2011);
    let (lng, lat) = loc.to_decimal().unwrap();
    assert!((lng as f64 / DEG - 139.766666).abs() < 0.0001);
    assert!((lat as f64 / DEG - 35.666666).abs() < 0.0001);
}
