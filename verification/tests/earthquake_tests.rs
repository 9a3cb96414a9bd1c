//! Earthquake correction gating.

use boring_parser::dates::SurveyStartDate;
use boring_parser::earthquake::{
    default_earthquake_registry, should_apply_earthquake_correction, should_apply_with_registry,
    str_contains, EarthquakeEvent,
};

#[test]
fn test_earthquake_correction_should_apply() {
    // 地震前の調査 → 適用する
    let before = SurveyStartDate::new(2010, 1, 1);
    assert!(should_apply_earthquake_correction("touhokutaiheiyouoki2011.par", Some(before)));

    // 地震後の調査 → 適用しない
    let after = SurveyStartDate::new(2012, 1, 1);
    assert!(!should_apply_earthquake_correction("touhokutaiheiyouoki2011.par", Some(after)));

    // ジオイド補正は常に適用
    assert!(should_apply_earthquake_correction("hyokorev2014_geoid2011_h.par", Some(before)));
    assert!(should_apply_earthquake_correction("hyokorev2014_geoid2011_h.par", Some(after)));
    assert!(should_apply_earthquake_correction("hyokorev2014_geoid2011_h.par", None));

    // 調査日不明の場合、地震補正は適用しない
    assert!(!should_apply_earthquake_correction("touhokutaiheiyouoki2011.par", None));
}

#[test]
fn survey_on_event_day_excludes_the_grid() {
    // The comparison is strict: a survey on the event day already recorded
    // post-event ground truth.
    let on_the_day = SurveyStartDate::new(2011, 3, 11);
    assert!(!should_apply_earthquake_correction("touhokutaiheiyouoki2011.par", Some(on_the_day)));
    let day_before = SurveyStartDate::new(2011, 3, 10);
    assert!(should_apply_earthquake_correction("touhokutaiheiyouoki2011.par", Some(day_before)));
}

#[test]
fn registry_holds_the_seven_events_in_order() {
    let registry = default_earthquake_registry();
    let names: Vec<&str> = registry.iter().map(|e| e.name_pattern.as_str()).collect();
    assert_eq!(
        names,
        vec![
            "tokachi2003",
            "fukuoka2005",
            "noto2007",
            "chuetsuoki2007",
            "iwatemiyagi2008",
            "touhokutaiheiyouoki2011",
            "kumamoto2016",
        ]
    );
    assert_eq!(registry[5].event_date, SurveyStartDate::new(2011, 3, 11));
    assert_eq!(registry[0].event_date, SurveyStartDate::new(2003, 9, 26));
}

#[test]
fn gating_with_a_substituted_registry() {
    let registry = vec![EarthquakeEvent {
        name_pattern: "testquake".to_string(),
        event_date: SurveyStartDate::new(2020, 6, 1),
    }];
    let before = SurveyStartDate::new(2019, 1, 1);
    let after = SurveyStartDate::new(2021, 1, 1);
    assert!(should_apply_with_registry(&registry, "testquake.par", Some(before)));
    assert!(!should_apply_with_registry(&registry, "testquake.par", Some(after)));
    assert!(!should_apply_with_registry(&registry, "testquake.par", None));
    // a name matching nothing always applies
    assert!(should_apply_with_registry(&registry, "geoid.par", None));
}

#[test]
fn containment_is_case_sensitive_substring() {
    assert!(str_contains("touhokutaiheiyouoki2011_h.par", "touhokutaiheiyouoki2011"));
    assert!(!str_contains("Touhokutaiheiyouoki2011.par", "touhokutaiheiyouoki2011"));
    assert!(str_contains("abc", ""));
    assert!(!str_contains("ab", "abc"));
}

#[test]
fn date_ordering_is_lexicographic() {
    let a = SurveyStartDate::new(2010, 5, 15);
    assert!(a.is_before(&SurveyStartDate::new(2011, 1, 1)));
    assert!(a.is_before(&SurveyStartDate::new(2010, 6, 1)));
    assert!(a.is_before(&SurveyStartDate::new(2010, 5, 16)));
    assert!(!a.is_before(&SurveyStartDate::new(2010, 5, 15)));
    assert!(!a.is_before(&SurveyStartDate::new(2009, 12, 31)));
}
