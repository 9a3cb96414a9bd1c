//! Pipeline dispatch, staging and fallback.

use boring_parser::coordinate::GeoLocation;
use boring_parser::dates::SurveyStartDate;
use boring_parser::dms::DmsCoordinate;
use boring_parser::params::CorrectionParameter;
use boring_parser::transform::{
    normalize_code, route_of_code, DatumRoute, StageKind, StageOutcome, TransformError,
    TransformSession,
};

/// Nano-arcseconds per degree, as a float, for reading results in tests.
const DEG: f64 = 3_600_000_000_000.0;

fn nanos(deg: f64) -> i64 {
    (deg * DEG).round() as i64
}

#[test]
fn test_code_normalization() {
    // "00" → "" (Tokyo Datum)
    let code = "00".trim().trim_start_matches('0');
    assert_eq!(code, "");

    // "01" → "1" (JGD2000)
    let code = "01".trim().trim_start_matches('0');
    assert_eq!(code, "1");

    // "02" → "2" (JGD2011)
    let code = "02".trim().trim_start_matches('0');
    assert_eq!(code, "2");
}

#[test]
fn normalize_code_matches_dispatch_convention() {
    assert_eq!(normalize_code("00"), "");
    assert_eq!(normalize_code("01"), "1");
    assert_eq!(normalize_code("02"), "2");
    assert_eq!(normalize_code(" 02 "), "2");
    assert_eq!(normalize_code("10"), "10");
}

#[test]
fn route_dispatch() {
    assert_eq!(route_of_code("00"), DatumRoute::TwoStage);
    assert_eq!(route_of_code("0"), DatumRoute::TwoStage);
    assert_eq!(route_of_code("01"), DatumRoute::ModernOnly);
    assert_eq!(route_of_code("02"), DatumRoute::Identity);
    assert_eq!(route_of_code("99"), DatumRoute::Identity);
    assert_eq!(route_of_code(""), DatumRoute::TwoStage);
}

#[test]
fn test_survey_date_parsing() {
    // YYYYMMDD形式
    let date = SurveyStartDate::from_yyyymmdd("20101015");
    assert!(date.is_some());
    let date = date.unwrap();
    assert_eq!(date.year, 2010);
    assert_eq!(date.month, 10);
    assert_eq!(date.day, 15);

    // 個別パース
    let date = SurveyStartDate::from_parts(Some("2011"), Some("3"), Some("10"));
    assert!(date.is_some());
    let date = date.unwrap();
    assert_eq!(date.year, 2011);
    assert_eq!(date.month, 3);
    assert_eq!(date.day, 10);
}

#[test]
fn survey_date_rejects_malformed_text() {
    assert!(SurveyStartDate::from_yyyymmdd("2010").is_none());
    assert!(SurveyStartDate::from_yyyymmdd("2010-101").is_none());
    assert!(SurveyStartDate::from_parts(None, Some("3"), Some("10")).is_none());
    assert!(SurveyStartDate::from_parts(Some("2011"), Some("x"), Some("10")).is_none());
    // text after the first eight digits is ignored
    let d = SurveyStartDate::from_yyyymmdd("20101015T0900").unwrap();
    assert_eq!((d.year, d.month, d.day), (2010, 10, 15));
}

#[test]
fn test_jgd2011_no_transform() {
    // JGD2011座標は変換不要
    let session = TransformSession::horizontal("02", nanos(35.666667), nanos(139.766667));
    assert!(session.pending_stage().is_none());
    let (lat, lon) = session.result_horizontal().unwrap();
    assert!((lat as f64 / DEG - 35.666667).abs() < 0.000001);
    assert!((lon as f64 / DEG - 139.766667).abs() < 0.000001);
}

#[test]
fn unknown_code_passes_through() {
    let session = TransformSession::horizontal("99", nanos(35.0), nanos(139.0));
    assert!(session.pending_stage().is_none());
    let (lat, lon) = session.result_horizontal().unwrap();
    assert_eq!((lat, lon), (nanos(35.0), nanos(139.0)));
}

#[test]
fn jgd2000_out_of_coverage_falls_back_horizontally() {
    // A JGD2000 point with no applicable patch stays where it is, within
    // a ten-thousandth of a degree of 139.76667 / 35.66667.
    let loc = GeoLocation {
        longitude: DmsCoordinate {
            degree: Some("139".to_string()),
            minute: Some("46".to_string()),
            second: Some("0".to_string()),
        },
        latitude: DmsCoordinate {
            degree: Some("35".to_string()),
            minute: Some("40".to_string()),
            second: Some("0".to_string()),
        },
        geodetic_system: Some("01".to_string()),
    };
    let mut session = loc.start_wgs84_conversion().unwrap();
    assert_eq!(session.pending_stage(), Some(StageKind::Modern));
    session.apply_stage(StageOutcome::OutOfCoverage);
    let (lat, lon) = session.result_horizontal().unwrap();
    assert!((lon as f64 / DEG - 139.76667).abs() < 0.0001);
    assert!((lat as f64 / DEG - 35.66667).abs() < 0.0001);
}

#[test]
fn tokyo_route_runs_two_stages() {
    // A synthetic historic shift of +10 arcseconds, then a modern shift of
    // +1 arcsecond, accumulate exactly.
    let mut session = TransformSession::horizontal("00", nanos(35.0), nanos(139.0));
    assert_eq!(session.pending_stage(), Some(StageKind::Historic));
    session.apply_stage(StageOutcome::Shifted(CorrectionParameter {
        latitude: 10_000_000_000,
        longitude: -10_000_000_000,
        altitude: 0,
    }));
    assert_eq!(session.pending_stage(), Some(StageKind::Modern));
    session.apply_stage(StageOutcome::Shifted(CorrectionParameter {
        latitude: 1_000_000_000,
        longitude: 1_000_000_000,
        altitude: 0,
    }));
    let (lat, lon) = session.result_horizontal().unwrap();
    assert_eq!(lat, nanos(35.0) + 11_000_000_000);
    assert_eq!(lon, nanos(139.0) - 9_000_000_000);
}

#[test]
fn tokyo_historic_failure_fails_whole_transform() {
    let mut session = TransformSession::horizontal("00", nanos(35.0), nanos(139.0));
    session.apply_stage(StageOutcome::OutOfCoverage);
    assert!(session.pending_stage().is_none());
    assert!(session.result_horizontal().is_none());
}

#[test]
fn tokyo_modern_out_of_coverage_keeps_historic_result() {
    let mut session = TransformSession::horizontal("00", nanos(35.0), nanos(139.0));
    session.apply_stage(StageOutcome::Shifted(CorrectionParameter {
        latitude: 10_000_000_000,
        longitude: -10_000_000_000,
        altitude: 0,
    }));
    session.apply_stage(StageOutcome::OutOfCoverage);
    let (lat, lon) = session.result_horizontal().unwrap();
    assert_eq!(lat, nanos(35.0) + 10_000_000_000);
    assert_eq!(lon, nanos(139.0) - 10_000_000_000);
}

#[test]
fn full_path_propagates_modern_out_of_coverage() {
    // The altitude-carrying path must not silently fall back.
    let mut session = TransformSession::full("01", nanos(38.26), nanos(140.88), 15_000_000_000);
    assert_eq!(session.pending_stage(), Some(StageKind::Modern));
    session.apply_stage(StageOutcome::OutOfCoverage);
    assert!(session.result_full().is_none());
}

#[test]
fn full_path_applies_altitude_shift() {
    let mut session = TransformSession::full("01", nanos(38.26), nanos(140.88), 15_000_000_000);
    session.apply_stage(StageOutcome::Shifted(CorrectionParameter {
        latitude: 0,
        longitude: 0,
        altitude: -500_000_000,
    }));
    let (_, _, alt) = session.result_full().unwrap();
    assert_eq!(alt, 14_500_000_000);
}

#[test]
fn transform_error_messages() {
    let e = TransformError::Parse("TKY2JGD: bad line".to_string());
    assert_eq!(e.message(), "parameter parse error: TKY2JGD: bad line");
    let e = TransformError::DirectoryNotFound("params".to_string());
    assert_eq!(e.message(), "parameter directory does not exist: params");
    let e = TransformError::FileRead("gone.par".to_string());
    assert_eq!(e.message(), "parameter file read error: gone.par");
    let e = TransformError::Transform("TKY2JGD: out of range".to_string());
    assert_eq!(e.message(), "transform error: TKY2JGD: out of range");
}
