//! Earthquake correction policy.
//!
//! A correction grid published after a seismic event must not be applied to
//! a survey taken on or after that event: the survey already recorded the
//! post-event ground truth, and re-applying the shift would move the point
//! twice. Grid files are matched against a small registry of known events by
//! case-sensitive substring containment of the file name.

use vstd::prelude::*;

use crate::dates::{spec_date_before, SurveyStartDate};

verus! {

/// One known seismic event: the substring its correction files carry in
/// their names, and the day the event happened.
#[derive(Debug, Clone, PartialEq)]
pub struct EarthquakeEvent {
    /// Substring of grid file names published for this event.
    pub name_pattern: String,
    /// The day the event happened.
    pub event_date: SurveyStartDate,
}

/// Whether `hay` contains `needle` as a contiguous run of characters.
pub open spec fn contains_seq(hay: Seq<char>, needle: Seq<char>) -> bool {
    exists|i: int|
        0 <= i <= hay.len() - needle.len() && #[trigger] hay.subrange(i, i + needle.len())
            == needle
}

/// The registry seen by specifications: each event as its pattern's
/// characters and its date.
pub open spec fn registry_view(events: Seq<EarthquakeEvent>) -> Seq<(Seq<char>, SurveyStartDate)> {
    events.map(|i: int, e: EarthquakeEvent| (e.name_pattern@, e.event_date))
}

/// The date of the first registry event whose pattern occurs in `name`,
/// if any does.
pub open spec fn spec_matching_event(
    table: Seq<(Seq<char>, SurveyStartDate)>,
    name: Seq<char>,
) -> Option<SurveyStartDate>
    decreases table.len(),
{
    if table.len() == 0 {
        None
    } else if contains_seq(name, table.first().0) {
        Some(table.first().1)
    } else {
        spec_matching_event(table.drop_first(), name)
    }
}

/// The gating rule: a file matching no event always applies; a file
/// matching an event applies only when the survey date is known and lies
/// strictly before the event.
pub open spec fn spec_should_apply(
    table: Seq<(Seq<char>, SurveyStartDate)>,
    name: Seq<char>,
    survey_date: Option<SurveyStartDate>,
) -> bool {
    match spec_matching_event(table, name) {
        None => true,
        Some(event_date) => survey_date matches Some(d) && spec_date_before(d, event_date),
    }
}

/// The seven registered events, in order of occurrence.
pub open spec fn spec_default_registry() -> Seq<(Seq<char>, SurveyStartDate)> {
    seq![
        ("tokachi2003"@, SurveyStartDate { year: 2003, month: 9, day: 26 }),
        ("fukuoka2005"@, SurveyStartDate { year: 2005, month: 3, day: 20 }),
        ("noto2007"@, SurveyStartDate { year: 2007, month: 3, day: 25 }),
        ("chuetsuoki2007"@, SurveyStartDate { year: 2007, month: 7, day: 16 }),
        ("iwatemiyagi2008"@, SurveyStartDate { year: 2008, month: 6, day: 14 }),
        ("touhokutaiheiyouoki2011"@, SurveyStartDate { year: 2011, month: 3, day: 11 }),
        ("kumamoto2016"@, SurveyStartDate { year: 2016, month: 4, day: 14 }),
    ]
}

/// Builds the default registry of the seven known events.
pub fn default_earthquake_registry() -> (r: Vec<EarthquakeEvent>)
    ensures
        registry_view(r@) == spec_default_registry(),
{
    let mut v: Vec<EarthquakeEvent> = Vec::new();
    v.push(
        EarthquakeEvent {
            name_pattern: String::from_str("tokachi2003"),
            event_date: SurveyStartDate { year: 2003, month: 9, day: 26 },
        },
    );
    v.push(
        EarthquakeEvent {
            name_pattern: String::from_str("fukuoka2005"),
            event_date: SurveyStartDate { year: 2005, month: 3, day: 20 },
        },
    );
    v.push(
        EarthquakeEvent {
            name_pattern: String::from_str("noto2007"),
            event_date: SurveyStartDate { year: 2007, month: 3, day: 25 },
        },
    );
    v.push(
        EarthquakeEvent {
            name_pattern: String::from_str("chuetsuoki2007"),
            event_date: SurveyStartDate { year: 2007, month: 7, day: 16 },
        },
    );
    v.push(
        EarthquakeEvent {
            name_pattern: String::from_str("iwatemiyagi2008"),
            event_date: SurveyStartDate { year: 2008, month: 6, day: 14 },
        },
    );
    v.push(
        EarthquakeEvent {
            name_pattern: String::from_str("touhokutaiheiyouoki2011"),
            event_date: SurveyStartDate { year: 2011, month: 3, day: 11 },
        },
    );
    v.push(
        EarthquakeEvent {
            name_pattern: String::from_str("kumamoto2016"),
            event_date: SurveyStartDate { year: 2016, month: 4, day: 14 },
        },
    );
    proof {
        assert(registry_view(v@) =~= spec_default_registry());
    }
    v
}

/// Whether `hay` contains `needle`, case-sensitively.
pub fn str_contains(hay: &str, needle: &str) -> (r: bool)
    ensures
        r == contains_seq(hay@, needle@),
{
    let hn = hay.unicode_len();
    let nn = needle.unicode_len();
    if nn > hn {
        return false;
    }
    if nn == 0 {
        proof {
            assert(hay@.subrange(0, 0 + needle@.len() as int) =~= needle@);
        }
        return true;
    }
    let mut i: usize = 0;
    while i <= hn - nn
        invariant
            0 <= i <= hn - nn + 1,
            1 <= nn <= hn,
            hn == hay@.len(),
            nn == needle@.len(),
            forall|k: int| 0 <= k < i ==> #[trigger] hay@.subrange(k, k + nn as int) != needle@,
        decreases hn - i,
    {
        let mut j: usize = 0;
        let mut matches_here = true;
        while j < nn
            invariant_except_break
                0 <= j <= nn,
                i + nn <= hn,
                hn == hay@.len(),
                nn == needle@.len(),
                matches_here,
                forall|t: int| 0 <= t < j ==> hay@[i + t] == needle@[t],
            ensures
                matches_here ==> forall|t: int| 0 <= t < nn ==> hay@[i + t] == needle@[t],
                !matches_here ==> hay@.subrange(i as int, i + nn as int) != needle@,
            decreases nn - j,
        {
            if hay.get_char(i + j) != needle.get_char(j) {
                matches_here = false;
                proof {
                    assert(hay@.subrange(i as int, i + nn as int)[j as int] == hay@[i + j]);
                }
                break;
            }
            j += 1;
        }
        if matches_here {
            proof {
                assert(hay@.subrange(i as int, i + nn as int) =~= needle@);
            }
            return true;
        }
        i += 1;
    }
    proof {
        assert forall|k: int| 0 <= k <= hay@.len() - needle@.len() implies #[trigger] hay@
            .subrange(k, k + needle@.len()) != needle@ by {
            assert(k < i);
        }
    }
    false
}

/// Decides whether the grid file `file_name` applies to a survey dated
/// `survey_date`, against the given event registry.
pub fn should_apply_with_registry(
    events: &Vec<EarthquakeEvent>,
    file_name: &str,
    survey_date: Option<SurveyStartDate>,
) -> (r: bool)
    ensures
        r == spec_should_apply(registry_view(events@), file_name@, survey_date),
{
    let n = events.len();
    let mut i: usize = 0;
    proof {
        assert(events@.skip(0) =~= events@);
    }
    while i < n
        invariant_except_break
            0 <= i <= n,
            n == events@.len(),
            forall|k: int|
                0 <= k < i ==> !contains_seq(file_name@, #[trigger] events@[k].name_pattern@),
            spec_matching_event(registry_view(events@), file_name@) == spec_matching_event(
                registry_view(events@.skip(i as int)),
                file_name@,
            ),
        ensures
            ({
                let m = spec_matching_event(registry_view(events@), file_name@);
                if i < n {
                    m == Some(events@[i as int].event_date) && contains_seq(
                        file_name@,
                        events@[i as int].name_pattern@,
                    )
                } else {
                    m is None
                }
            }),
        decreases n - i,
    {
        let ev = &events[i];
        if str_contains(file_name, ev.name_pattern.as_str()) {
            proof {
                assert(registry_view(events@.skip(i as int)).first() == (
                    events@[i as int].name_pattern@,
                    events@[i as int].event_date,
                ));
            }
            break;
        }
        proof {
            assert(registry_view(events@.skip(i as int)).drop_first() =~= registry_view(
                events@.skip(i as int + 1),
            ));
            assert(registry_view(events@.skip(i as int)).first() == (
                events@[i as int].name_pattern@,
                events@[i as int].event_date,
            ));
        }
        i += 1;
    }
    if i < n {
        match survey_date {
            Some(d) => d.is_before(&events[i].event_date),
            None => false,
        }
    } else {
        true
    }
}

/// Decides whether the grid file `file_name` applies to a survey dated
/// `survey_date`, against the default registry of seven events.
pub fn should_apply_earthquake_correction(
    file_name: &str,
    survey_date: Option<SurveyStartDate>,
) -> (r: bool)
    ensures
        r == spec_should_apply(spec_default_registry(), file_name@, survey_date),
{
    let events = default_earthquake_registry();
    should_apply_with_registry(&events, file_name, survey_date)
}

} // verus!
