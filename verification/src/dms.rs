//! Degree-minute-second coordinates and their exact decimal value.
//!
//! A decimal angle is held as an integer count of nano-arcseconds
//! (one degree is 3 600 000 000 000 nano-arcseconds), so that
//! `degree + minute/60 + second/3600` is computed without rounding.
//! A textual component may carry up to nine fractional digits and up to six
//! integer digits; anything else does not convert.

use vstd::prelude::*;

use crate::digits::{
    all_digits, digits_val, lemma_digits_val_bound, lemma_pow10_add,
    lemma_pow10_monotonic, parse_all_digits, pow10, pow10_u64,
};

verus! {

/// Nano-arcseconds in one arcsecond.
pub const NANOS_PER_SECOND: i64 = 1_000_000_000;

/// Nano-arcseconds in one degree.
pub const NANOS_PER_DEGREE: i64 = 3_600_000_000_000;

/// The index of the first `.` in `s`, or -1 if there is none.
pub open spec fn find_dot(s: Seq<char>) -> int
    decreases s.len(),
{
    if s.len() == 0 {
        -1
    } else if s.first() == '.' {
        0
    } else {
        let r = find_dot(s.drop_first());
        if r < 0 {
            -1
        } else {
            r + 1
        }
    }
}

proof fn lemma_find_dot_at(s: Seq<char>, i: int)
    requires
        0 <= i < s.len(),
        s[i] == '.',
        forall|j: int| 0 <= j < i ==> s[j] != '.',
    ensures
        find_dot(s) == i,
    decreases i,
{
    if i > 0 {
        lemma_find_dot_at(s.drop_first(), i - 1);
    }
}

proof fn lemma_find_dot_none(s: Seq<char>)
    requires
        forall|j: int| 0 <= j < s.len() ==> s[j] != '.',
    ensures
        find_dot(s) == -1,
    decreases s.len(),
{
    if s.len() > 0 {
        lemma_find_dot_none(s.drop_first());
    }
}

/// Whether `s` is a well-formed decimal component: one to six integer
/// digits, optionally followed by a dot and one to nine fractional digits.
pub open spec fn valid_component(s: Seq<char>) -> bool {
    let d = find_dot(s);
    if d < 0 {
        1 <= s.len() <= 6 && all_digits(s)
    } else {
        1 <= d <= 6 && d + 1 < s.len() && s.len() - d - 1 <= 9 && all_digits(s.take(d))
            && all_digits(s.skip(d + 1))
    }
}

/// The value of a well-formed component in nano-units
/// (the textual value scaled by ten to the ninth).
pub open spec fn component_nanos(s: Seq<char>) -> int {
    let d = find_dot(s);
    if d < 0 {
        digits_val(s) * 1_000_000_000
    } else {
        digits_val(s.take(d)) * 1_000_000_000 + digits_val(s.skip(d + 1)) * pow10(
            (9 - (s.len() - d - 1)) as nat,
        )
    }
}

/// A well-formed component is below a million units, that is below
/// ten to the fifteenth nano-units.
pub proof fn lemma_component_nanos_bound(s: Seq<char>)
    requires
        valid_component(s),
    ensures
        0 <= component_nanos(s) < 1_000_000_000_000_000,
{
    let d = find_dot(s);
    if d < 0 {
        lemma_digits_val_bound(s);
        lemma_pow10_monotonic(s.len(), 6);
        reveal_with_fuel(pow10, 7);
        assert(digits_val(s) * 1_000_000_000 <= (1_000_000 - 1) * 1_000_000_000)
            by (nonlinear_arith)
            requires 0 <= digits_val(s) <= 1_000_000 - 1,
        ;
    } else {
        let ip = s.take(d);
        let fp = s.skip(d + 1);
        let fl = (s.len() - d - 1) as nat;
        lemma_digits_val_bound(ip);
        lemma_digits_val_bound(fp);
        lemma_pow10_monotonic(ip.len(), 6);
        reveal_with_fuel(pow10, 7);
        assert(digits_val(ip) * 1_000_000_000 <= (1_000_000 - 1) * 1_000_000_000)
            by (nonlinear_arith)
            requires 0 <= digits_val(ip) <= 1_000_000 - 1,
        ;
        lemma_pow10_add(fl, (9 - fl) as nat);
        assert(digits_val(fp) * pow10((9 - fl) as nat) <= (pow10(fl) - 1) * pow10((9 - fl) as nat))
            by (nonlinear_arith)
            requires
                0 <= digits_val(fp) <= pow10(fl) - 1,
                pow10((9 - fl) as nat) >= 1,
        ;
        assert((pow10(fl) - 1) * pow10((9 - fl) as nat) == pow10(9nat) - pow10((9 - fl) as nat))
            by (nonlinear_arith)
            requires pow10(fl) * pow10((9 - fl) as nat) == pow10(9nat),
        ;
        lemma_pow10_monotonic(0, (9 - fl) as nat);
        reveal_with_fuel(pow10, 10);
        assert(pow10(9nat) == 1_000_000_000);
        assert(digits_val(fp) * pow10((9 - fl) as nat) >= 0) by (nonlinear_arith)
            requires
                digits_val(fp) >= 0,
                pow10((9 - fl) as nat) >= 1,
        ;
    }
}

/// Reads one textual coordinate component into nano-units.
/// Returns `None` exactly when the text is not a well-formed component.
pub fn parse_component(s: &str) -> (r: Option<i64>)
    ensures
        r is Some <==> valid_component(s@),
        r matches Some(v) ==> v as int == component_nanos(s@),
        r matches Some(v) ==> 0 <= v < 1_000_000_000_000_000,
{
    let n = s.unicode_len();
    let mut dot: usize = 0;
    let mut found = false;
    let mut i: usize = 0;
    while i < n
        invariant_except_break
            0 <= i <= n,
            n == s@.len(),
            forall|j: int| 0 <= j < i ==> s@[j] != '.',
            !found,
        ensures
            found ==> 0 <= dot < n && s@[dot as int] == '.' && (forall|j: int|
                0 <= j < dot ==> s@[j] != '.'),
            !found ==> forall|j: int| 0 <= j < n ==> s@[j] != '.',
        decreases n - i,
    {
        if s.get_char(i) == '.' {
            dot = i;
            found = true;
            break;
        }
        i += 1;
    }
    if !found {
        proof {
            lemma_find_dot_none(s@);
        }
        if n < 1 || n > 6 {
            return None;
        }
        let v = match parse_all_digits(s) {
            Some(v) => v,
            None => {
                return None;
            },
        };
        proof {
            lemma_digits_val_bound(s@);
            lemma_pow10_monotonic(s@.len(), 6);
            reveal_with_fuel(pow10, 7);
        }
        return Some((v as i64) * NANOS_PER_SECOND);
    }
    proof {
        lemma_find_dot_at(s@, dot as int);
    }
    if dot < 1 || dot > 6 {
        return None;
    }
    if n - dot - 1 < 1 || n - dot - 1 > 9 {
        return None;
    }
    let ip_str = s.substring_char(0, dot);
    let fp_str = s.substring_char(dot + 1, n);
    proof {
        assert(ip_str@ =~= s@.take(dot as int));
        assert(fp_str@ =~= s@.skip(dot as int + 1));
    }
    let ip = match parse_all_digits(ip_str) {
        Some(v) => v,
        None => {
            return None;
        },
    };
    let fp = match parse_all_digits(fp_str) {
        Some(v) => v,
        None => {
            return None;
        },
    };
    let fl = n - dot - 1;
    proof {
        lemma_component_nanos_bound(s@);
        lemma_digits_val_bound(ip_str@);
        lemma_digits_val_bound(fp_str@);
        lemma_pow10_monotonic(ip_str@.len(), 6);
        lemma_pow10_monotonic((9 - fl) as nat, 9);
        reveal_with_fuel(pow10, 10);
        assert(digits_val(fp_str@) * pow10((9 - fl) as nat) <= (1_000_000_000 - 1)
            * 1_000_000_000) by (nonlinear_arith)
            requires
                0 <= digits_val(fp_str@) <= 1_000_000_000 - 1,
                0 <= pow10((9 - fl) as nat) <= 1_000_000_000,
        ;
    }
    let scale = pow10_u64(9 - fl);
    let v = ip * 1_000_000_000 + fp * scale;
    Some(v as i64)
}

/// A degree-minute-second coordinate as it stands in a record;
/// each component is optional text.
#[derive(Debug, Clone, PartialEq)]
pub struct DmsCoordinate {
    /// Whole degrees, as text.
    pub degree: Option<String>,
    /// Minutes of arc, as text.
    pub minute: Option<String>,
    /// Seconds of arc, as text.
    pub second: Option<String>,
}

/// Whether all three components are present and well formed.
pub open spec fn spec_dms_valid(d: &DmsCoordinate) -> bool {
    &&& d.degree matches Some(x) && valid_component(x@)
    &&& d.minute matches Some(x) && valid_component(x@)
    &&& d.second matches Some(x) && valid_component(x@)
}

/// The decimal value of the coordinate in nano-arcseconds:
/// `degree + minute/60 + second/3600` degrees, held exactly.
pub open spec fn spec_dms_nanos(d: &DmsCoordinate) -> int
    recommends
        spec_dms_valid(d),
{
    3600 * component_nanos(d.degree->0@) + 60 * component_nanos(d.minute->0@) + component_nanos(
        d.second->0@,
    )
}

impl DmsCoordinate {
    /// Converts degree-minute-second text to a decimal angle in
    /// nano-arcseconds. The result is absent exactly when a component is
    /// missing or fails to parse.
    pub fn to_decimal(&self) -> (r: Option<i64>)
        ensures
            r is Some <==> spec_dms_valid(self),
            r matches Some(v) ==> v as int == spec_dms_nanos(self),
            r matches Some(v) ==> 0 <= v < 3_661_000_000_000_000_000,
    {
        let deg = match &self.degree {
            Some(s) => match parse_component(s.as_str()) {
                Some(v) => v,
                None => {
                    return None;
                },
            },
            None => {
                return None;
            },
        };
        let min = match &self.minute {
            Some(s) => match parse_component(s.as_str()) {
                Some(v) => v,
                None => {
                    return None;
                },
            },
            None => {
                return None;
            },
        };
        let sec = match &self.second {
            Some(s) => match parse_component(s.as_str()) {
                Some(v) => v,
                None => {
                    return None;
                },
            },
            None => {
                return None;
            },
        };
        Some(3600 * deg + 60 * min + sec)
    }
}

} // verus!
