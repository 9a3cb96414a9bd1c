//! Survey start dates.
//!
//! A survey date is compared against earthquake event dates to decide
//! whether a post-event correction grid applies; nothing else is done
//! with it, so it is a plain (year, month, day) triple ordered
//! lexicographically.

use vstd::prelude::*;

use crate::digits::{all_digits, digits_val, lemma_digits_val_bound, parse_all_digits, pow10};

verus! {

/// The day a survey started, ordered by (year, month, day).
#[derive(Debug, Clone, Copy, PartialEq, Eq, Structural, PartialOrd, Ord)]
pub struct SurveyStartDate {
    pub year: i32,
    pub month: u32,
    pub day: u32,
}

/// Whether date `a` lies strictly before date `b`.
pub open spec fn spec_date_before(a: SurveyStartDate, b: SurveyStartDate) -> bool {
    ||| a.year < b.year
    ||| (a.year == b.year && a.month < b.month)
    ||| (a.year == b.year && a.month == b.month && a.day < b.day)
}

/// Whether `s` starts with eight digits, read as YYYYMMDD.
pub open spec fn spec_yyyymmdd_valid(s: Seq<char>) -> bool {
    s.len() >= 8 && all_digits(s.take(8))
}

/// The date read from the first eight digits of `s`.
pub open spec fn spec_yyyymmdd_date(s: Seq<char>) -> SurveyStartDate
    recommends
        spec_yyyymmdd_valid(s),
{
    SurveyStartDate {
        year: digits_val(s.take(4)) as i32,
        month: digits_val(s.subrange(4, 6)) as u32,
        day: digits_val(s.subrange(6, 8)) as u32,
    }
}

/// Whether `s` is a plain decimal field of one to nine digits.
pub open spec fn spec_date_part_valid(s: Seq<char>) -> bool {
    1 <= s.len() <= 9 && all_digits(s)
}

impl SurveyStartDate {
    pub fn new(year: i32, month: u32, day: u32) -> (r: Self)
        ensures
            r == (SurveyStartDate { year, month, day }),
    {
        Self { year, month, day }
    }

    /// Whether `self` lies strictly before `other`.
    pub fn is_before(&self, other: &SurveyStartDate) -> (r: bool)
        ensures
            r == spec_date_before(*self, *other),
    {
        if self.year != other.year {
            self.year < other.year
        } else if self.month != other.month {
            self.month < other.month
        } else {
            self.day < other.day
        }
    }

    /// Reads a date from text in YYYYMMDD form; text after the first eight
    /// characters is ignored. Absent when the text is shorter than eight
    /// characters or a digit is missing.
    pub fn from_yyyymmdd(s: &str) -> (r: Option<Self>)
        ensures
            r is Some <==> spec_yyyymmdd_valid(s@),
            r matches Some(d) ==> d == spec_yyyymmdd_date(s@),
    {
        let n = s.unicode_len();
        if n < 8 {
            return None;
        }
        let year_str = s.substring_char(0, 4);
        let month_str = s.substring_char(4, 6);
        let day_str = s.substring_char(6, 8);
        proof {
            assert(year_str@ =~= s@.take(4));
            assert(month_str@ =~= s@.subrange(4, 6));
            assert(day_str@ =~= s@.subrange(6, 8));
        }
        let year = match parse_all_digits(year_str) {
            Some(v) => v,
            None => {
                proof {
                    let k = choose|k: int| 0 <= k < 4 && !crate::digits::is_digit(year_str@[k]);
                    assert(s@.take(8)[k] == year_str@[k]);
                }
                return None;
            },
        };
        let month = match parse_all_digits(month_str) {
            Some(v) => v,
            None => {
                proof {
                    let k = choose|k: int|
                        0 <= k < 2 && !crate::digits::is_digit(month_str@[k]);
                    assert(s@.take(8)[k + 4] == month_str@[k]);
                }
                return None;
            },
        };
        let day = match parse_all_digits(day_str) {
            Some(v) => v,
            None => {
                proof {
                    let k = choose|k: int| 0 <= k < 2 && !crate::digits::is_digit(day_str@[k]);
                    assert(s@.take(8)[k + 6] == day_str@[k]);
                }
                return None;
            },
        };
        proof {
            assert forall|j: int| 0 <= j < 8 implies crate::digits::is_digit(
                #[trigger] s@.take(8)[j],
            ) by {
                if j < 4 {
                    assert(year_str@[j] == s@.take(8)[j]);
                } else if j < 6 {
                    assert(month_str@[j - 4] == s@.take(8)[j]);
                } else {
                    assert(day_str@[j - 6] == s@.take(8)[j]);
                }
            }
            lemma_digits_val_bound(year_str@);
            lemma_digits_val_bound(month_str@);
            lemma_digits_val_bound(day_str@);
            reveal_with_fuel(pow10, 5);
        }
        Some(Self { year: year as i32, month: month as u32, day: day as u32 })
    }

    /// Reads a date from separate year, month and day fields, each one to
    /// nine digits. Absent when a field is missing or malformed.
    pub fn from_parts(year: Option<&str>, month: Option<&str>, day: Option<&str>) -> (r: Option<
        Self,
    >)
        ensures
            r is Some <==> {
                &&& year matches Some(y) && spec_date_part_valid(y@)
                &&& month matches Some(m) && spec_date_part_valid(m@)
                &&& day matches Some(d) && spec_date_part_valid(d@)
            },
            r matches Some(v) ==> {
                &&& v.year == digits_val(year->0@)
                &&& v.month == digits_val(month->0@)
                &&& v.day == digits_val(day->0@)
            },
    {
        let y = match year {
            Some(t) => match Self::parse_part(t) {
                Some(v) => v,
                None => {
                    return None;
                },
            },
            None => {
                return None;
            },
        };
        let m = match month {
            Some(t) => match Self::parse_part(t) {
                Some(v) => v,
                None => {
                    return None;
                },
            },
            None => {
                return None;
            },
        };
        let d = match day {
            Some(t) => match Self::parse_part(t) {
                Some(v) => v,
                None => {
                    return None;
                },
            },
            None => {
                return None;
            },
        };
        Some(Self { year: y as i32, month: m as u32, day: d as u32 })
    }

    /// Reads one date field of one to nine digits.
    fn parse_part(s: &str) -> (r: Option<u64>)
        ensures
            r is Some <==> spec_date_part_valid(s@),
            r matches Some(v) ==> v as int == digits_val(s@) && v < 1_000_000_000,
    {
        let n = s.unicode_len();
        if n < 1 || n > 9 {
            return None;
        }
        let r = parse_all_digits(s);
        proof {
            if r is Some {
                lemma_digits_val_bound(s@);
                crate::digits::lemma_pow10_monotonic(s@.len(), 9);
                reveal_with_fuel(pow10, 10);
            }
        }
        r
    }
}

} // verus!
