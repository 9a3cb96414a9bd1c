//! Parameter merging, file planning and provenance.

use boring_parser::dates::SurveyStartDate;
use boring_parser::earthquake::default_earthquake_registry;
use boring_parser::error::ParseError;
use boring_parser::transform::{StageOutcome, TransformSession};
use boring_parser::params::{
    action_for, assemble_parameter_set, format_for, is_par_file_name, CorrectionParameter,
    FileAction, GridFile, GridFileKind, GridFormat, ParameterSet,
};

fn cp(latitude: i64, longitude: i64, altitude: i64) -> CorrectionParameter {
    CorrectionParameter { latitude, longitude, altitude }
}

fn grid(name: &str, kind: GridFileKind, entries: Vec<(u32, CorrectionParameter)>) -> GridFile {
    GridFile { name: name.to_string(), kind, entries }
}

#[test]
fn merge_is_commutative_across_files() {
    // Two files sharing mesh node 5036 and each owning one more node:
    // merging A then B must equal merging B then A, node for node.
    let a = || grid(
        "a.par",
        GridFileKind::Horizontal,
        vec![(5036, cp(100, -50, 0)), (5037, cp(7, 7, 7))],
    );
    let b = || grid(
        "b.par",
        GridFileKind::Horizontal,
        vec![(5036, cp(23, 17, 4)), (5038, cp(-1, -2, -3))],
    );
    let events = default_earthquake_registry();
    let ab = assemble_parameter_set(&vec![a(), b()], &events, None);
    let ba = assemble_parameter_set(&vec![b(), a()], &events, None);
    assert_eq!(ab.parameters, ba.parameters);
    assert_eq!(ab.parameters.len(), 3);
    assert_eq!(ab.parameters.get(&5036), Some(&cp(123, -33, 4)));
    assert_eq!(ab.parameters.get(&5037), Some(&cp(7, 7, 7)));
    assert_eq!(ab.parameters.get(&5038), Some(&cp(-1, -2, -3)));
}

#[test]
fn gating_skips_post_event_file_and_logs_it() {
    let events = default_earthquake_registry();
    let survey = Some(SurveyStartDate::new(2012, 1, 1));
    let files = vec![
        grid("touhokutaiheiyouoki2011.par", GridFileKind::Horizontal, vec![(1, cp(9, 9, 9))]),
        grid("geoid.par", GridFileKind::Horizontal, vec![(1, cp(1, 1, 1))]),
    ];
    let set = assemble_parameter_set(&files, &events, survey);
    // the excluded file contributed nothing
    assert_eq!(set.parameters.get(&1), Some(&cp(1, 1, 1)));
    assert_eq!(
        set.provenance,
        vec![
            "touhokutaiheiyouoki2011.par (skipped: survey after earthquake)".to_string(),
            "geoid.par (applied)".to_string(),
        ]
    );
    assert_eq!(set.survey_date, survey);
}

#[test]
fn pre_event_survey_applies_the_event_file() {
    let events = default_earthquake_registry();
    let survey = Some(SurveyStartDate::new(2010, 1, 1));
    let files = vec![
        grid("touhokutaiheiyouoki2011.par", GridFileKind::Horizontal, vec![(1, cp(9, 9, 9))]),
    ];
    let set = assemble_parameter_set(&files, &events, survey);
    assert_eq!(set.parameters.get(&1), Some(&cp(9, 9, 9)));
    assert_eq!(set.provenance, vec!["touhokutaiheiyouoki2011.par (applied)".to_string()]);
}

#[test]
fn unknown_survey_date_excludes_event_files_only() {
    let events = default_earthquake_registry();
    let files = vec![
        grid("kumamoto2016.par", GridFileKind::Horizontal, vec![(1, cp(9, 9, 9))]),
        grid("hyokorev2014_geoid2011_h.par", GridFileKind::Elevation, vec![(1, cp(0, 0, 5))]),
    ];
    let set = assemble_parameter_set(&files, &events, None);
    assert_eq!(set.parameters.get(&1), Some(&cp(0, 0, 5)));
}

#[test]
fn non_grid_files_are_ignored_silently() {
    let events = default_earthquake_registry();
    let files = vec![
        grid("readme.txt", GridFileKind::Horizontal, vec![]),
        grid("a.par", GridFileKind::Horizontal, vec![(2, cp(1, 0, 0))]),
    ];
    let set = assemble_parameter_set(&files, &events, None);
    assert_eq!(set.provenance, vec!["a.par (applied)".to_string()]);
    assert_eq!(set.parameters.len(), 1);
}

#[test]
fn par_extension_detection() {
    assert!(is_par_file_name("touhokutaiheiyouoki2011.par"));
    assert!(is_par_file_name("a.b.par"));
    assert!(!is_par_file_name(".par"));
    assert!(!is_par_file_name("data.PAR"));
    assert!(!is_par_file_name("data.par.bak"));
    assert!(!is_par_file_name("par"));
}

#[test]
fn elevation_format_depends_on_geoid_naming() {
    assert_eq!(
        format_for(GridFileKind::Elevation, "hyokorev2014_geoid2011_h.par"),
        GridFormat::HyokoRev
    );
    assert_eq!(
        format_for(GridFileKind::Elevation, "touhokutaiheiyouoki2011_h.par"),
        GridFormat::PatchJgdH
    );
    assert_eq!(format_for(GridFileKind::Horizontal, "anything.par"), GridFormat::PatchJgd);
}

#[test]
fn file_actions_cover_the_three_cases() {
    let events = default_earthquake_registry();
    let after = Some(SurveyStartDate::new(2012, 1, 1));
    assert_eq!(
        action_for(GridFileKind::Horizontal, "notes.txt", &events, after),
        FileAction::NotGridFile
    );
    assert_eq!(
        action_for(GridFileKind::Horizontal, "touhokutaiheiyouoki2011.par", &events, after),
        FileAction::SkippedSurveyAfterEvent
    );
    assert_eq!(
        action_for(GridFileKind::Elevation, "hyokorev2014_geoid2011_h.par", &events, after),
        FileAction::Apply(GridFormat::HyokoRev)
    );
}

#[test]
fn missing_directory_yields_empty_tagged_set() {
    let set = ParameterSet::empty_tagged("No patch files");
    assert!(set.parameters.is_empty());
    assert_eq!(set.provenance, vec!["No patch files".to_string()]);
    assert!(set.survey_date.is_none());
}

#[test]
fn empty_set_still_supports_the_pipeline() {
    // A patch-free source: the modern stage is simply out of coverage
    // everywhere, and a JGD2000 point passes through unchanged.
    let set = ParameterSet::empty_tagged("No patch files");
    let mut session = TransformSession::horizontal("01", 1_000, 2_000);
    // with an empty table the provider finds no node to interpolate
    assert!(set.parameters.is_empty());
    session.apply_stage(StageOutcome::OutOfCoverage);
    assert_eq!(session.result_horizontal(), Some((1_000, 2_000)));
}

#[test]
fn parse_error_message() {
    let e = ParseError::ParseError("DTD_version was not found".to_string());
    assert_eq!(e.message(), "Failed to parse: DTD_version was not found");
}

#[test]
fn description_renders_one_line_per_file() {
    let events = default_earthquake_registry();
    let files = vec![
        grid("touhokutaiheiyouoki2011.par", GridFileKind::Horizontal, vec![(1, cp(9, 9, 9))]),
        grid("geoid.par", GridFileKind::Horizontal, vec![(1, cp(1, 1, 1))]),
    ];
    let set = assemble_parameter_set(&files, &events, Some(SurveyStartDate::new(2012, 1, 1)));
    assert_eq!(
        set.description(),
        "touhokutaiheiyouoki2011.par (skipped: survey after earthquake)\ngeoid.par (applied)\n"
    );
}
