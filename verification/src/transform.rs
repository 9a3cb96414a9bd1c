//! The staged transform pipeline.
//!
//! A point is carried from its recorded datum into the modern frame through
//! zero, one or two correction stages: the historic stage (Tokyo Datum to
//! JGD2000) and the modern stage (JGD2000 to JGD2011). The raw grid
//! interpolation is supplied by an external provider; this module holds the
//! verified decisions: which stages a datum code demands, and what each
//! stage outcome means. The horizontal entry point falls back to the prior
//! stage when the modern grid does not cover the point; the full
//! (altitude-carrying) entry point propagates that as a failure instead,
//! because a silently unshifted altitude would mislead the caller.
//! A failed historic stage fails the whole transform on both paths: an
//! unshifted historic point is not meaningfully converted.

use vstd::prelude::*;

use crate::params::{bounded3, cp_model, CorrectionParameter, COMPONENT_LIMIT};
use crate::text::{spec_trim, trim_spaces};

verus! {

/// Largest accepted magnitude of an input coordinate component, in
/// nano-units; admits every well-formed degree-minute-second value and
/// keeps every staged sum inside a 64-bit integer.
pub const POINT_LIMIT: i64 = 4_000_000_000_000_000_000;

/// An error of the transform machinery, carrying a human-readable detail.
#[derive(Debug, Clone, PartialEq)]
pub enum TransformError {
    /// A parameter file could not be read.
    FileRead(String),
    /// A parameter file could not be parsed.
    Parse(String),
    /// A point could not be transformed.
    Transform(String),
    /// The parameter directory does not exist.
    DirectoryNotFound(String),
}

impl TransformError {
    /// The error as one human-readable line.
    pub fn message(&self) -> (r: String)
        ensures
            match self {
                TransformError::FileRead(d) => r@ == "parameter file read error: "@ + d@,
                TransformError::Parse(d) => r@ == "parameter parse error: "@ + d@,
                TransformError::Transform(d) => r@ == "transform error: "@ + d@,
                TransformError::DirectoryNotFound(d) => r@ == "parameter directory does not exist: "@
                    + d@,
            },
    {
        match self {
            TransformError::FileRead(d) => String::from_str("parameter file read error: ").concat(
                d.as_str(),
            ),
            TransformError::Parse(d) => String::from_str("parameter parse error: ").concat(
                d.as_str(),
            ),
            TransformError::Transform(d) => String::from_str("transform error: ").concat(
                d.as_str(),
            ),
            TransformError::DirectoryNotFound(d) => String::from_str(
                "parameter directory does not exist: ",
            ).concat(d.as_str()),
        }
    }
}

/// `s` with every leading `'0'` removed.
pub open spec fn spec_strip_leading_zeros(s: Seq<char>) -> Seq<char>
    decreases s.len(),
{
    if s.len() > 0 && s.first() == '0' {
        spec_strip_leading_zeros(s.drop_first())
    } else {
        s
    }
}

/// A datum code normalized for dispatch: trimmed, leading zeros removed.
/// "00" becomes "", "01" becomes "1", "02" becomes "2".
pub open spec fn spec_normalize_code(s: Seq<char>) -> Seq<char> {
    spec_strip_leading_zeros(spec_trim(s))
}

/// Removes every leading `'0'` from `s`.
fn strip_leading_zeros(s: &str) -> (r: &str)
    ensures
        r@ == spec_strip_leading_zeros(s@),
    decreases s@.len(),
{
    let n = s.unicode_len();
    if n == 0 {
        return s;
    }
    if s.get_char(0) == '0' {
        let rest = s.substring_char(1, n);
        proof {
            assert(rest@ =~= s@.drop_first());
        }
        return strip_leading_zeros(rest);
    }
    s
}

/// Normalizes a datum code for dispatch: trims whitespace and strips
/// leading zeros.
pub fn normalize_code(code: &str) -> (r: &str)
    ensures
        r@ == spec_normalize_code(code@),
{
    strip_leading_zeros(trim_spaces(code))
}

/// The stages a datum code routes a point through.
#[derive(Debug, Clone, Copy, PartialEq, Eq, Structural)]
pub enum DatumRoute {
    /// Tokyo Datum: the historic stage, then the modern stage.
    TwoStage,
    /// JGD2000: the modern stage only.
    ModernOnly,
    /// JGD2011, or an unknown code: no stage at all.
    Identity,
}

/// The route a textual datum code dispatches to. A normalized code of ""
/// is the historic Tokyo Datum; "1" is JGD2000; "2" is JGD2011; anything
/// else is unknown and passes through unchanged.
pub open spec fn spec_route_of(code: Seq<char>) -> DatumRoute {
    let n = spec_normalize_code(code);
    if n.len() == 0 {
        DatumRoute::TwoStage
    } else if n == seq!['1'] {
        DatumRoute::ModernOnly
    } else if n == seq!['2'] {
        DatumRoute::Identity
    } else {
        DatumRoute::Identity
    }
}

/// Dispatches a textual datum code to its transform route.
pub fn route_of_code(code: &str) -> (r: DatumRoute)
    ensures
        r == spec_route_of(code@),
{
    let t = normalize_code(code);
    let n = t.unicode_len();
    if n == 0 {
        return DatumRoute::TwoStage;
    }
    if n == 1 {
        let c = t.get_char(0);
        proof {
            assert(t@ =~= seq![t@[0]]);
        }
        if c == '1' {
            return DatumRoute::ModernOnly;
        }
        return DatumRoute::Identity;
    }
    proof {
        assert(t@ != seq!['1'] && t@ != seq!['2']);
    }
    DatumRoute::Identity
}

/// A point in integer nano-units: latitude and longitude in
/// nano-arcseconds, altitude in nano-meters.
#[derive(Debug, Clone, Copy, PartialEq, Eq, Structural)]
pub struct GridPoint {
    pub latitude: i64,
    pub longitude: i64,
    pub altitude: i64,
}

/// Whether each component of `p` has magnitude at most `b`.
pub open spec fn point_bounded(p: GridPoint, b: int) -> bool {
    -b <= p.latitude <= b && -b <= p.longitude <= b && -b <= p.altitude <= b
}

/// `p` displaced by `c`, component-wise.
pub open spec fn spec_shift(p: GridPoint, c: CorrectionParameter) -> GridPoint {
    GridPoint {
        latitude: (p.latitude + c.latitude) as i64,
        longitude: (p.longitude + c.longitude) as i64,
        altitude: (p.altitude + c.altitude) as i64,
    }
}

/// Which correction stage the provider is asked to interpolate.
#[derive(Debug, Clone, Copy, PartialEq, Eq, Structural)]
pub enum StageKind {
    /// Tokyo Datum to JGD2000, from the historic parameter set.
    Historic,
    /// JGD2000 to JGD2011, from the unified modern parameter set.
    Modern,
}

/// What the provider reported for one stage at the session's current point.
#[derive(Debug, Clone, Copy, PartialEq, Eq, Structural)]
pub enum StageOutcome {
    /// The interpolated displacement at the point.
    Shifted(CorrectionParameter),
    /// The parameter set does not cover the point.
    OutOfCoverage,
}

/// Which entry point the session serves; the two differ in how a modern
/// stage out-of-coverage is resolved.
#[derive(Debug, Clone, Copy, PartialEq, Eq, Structural)]
pub enum TransformMode {
    /// Lat/lon only; modern out-of-coverage falls back to the prior stage.
    Horizontal,
    /// Lat/lon/alt; modern out-of-coverage fails the transform.
    Full,
}

/// Where a session stands.
#[derive(Debug, Clone, Copy, PartialEq, Eq, Structural)]
pub enum TransformPhase {
    /// The provider must interpolate the historic stage next.
    AwaitHistoric,
    /// The provider must interpolate the modern stage next.
    AwaitModern,
    /// Finished; the current point is the result.
    Done,
    /// Failed; there is no result.
    Failed,
}

/// One point's passage through the pipeline. The caller drives it: while a
/// stage is pending, it interpolates the current point against that
/// stage's parameter set and feeds the outcome back.
#[derive(Debug, Clone, Copy, PartialEq, Eq, Structural)]
pub struct TransformSession {
    pub mode: TransformMode,
    pub phase: TransformPhase,
    pub current: GridPoint,
}

/// The session a route starts in: two-stage routes await the historic
/// stage, modern-only routes await the modern stage, identity routes are
/// done at once with the input unchanged.
pub open spec fn spec_start(route: DatumRoute, p: GridPoint, mode: TransformMode) -> TransformSession {
    match route {
        DatumRoute::TwoStage => TransformSession {
            mode,
            phase: TransformPhase::AwaitHistoric,
            current: p,
        },
        DatumRoute::ModernOnly => TransformSession {
            mode,
            phase: TransformPhase::AwaitModern,
            current: p,
        },
        DatumRoute::Identity => TransformSession { mode, phase: TransformPhase::Done, current: p },
    }
}

/// How a pending session advances on a stage outcome.
///
/// Historic stage: a shift moves the point and the modern stage becomes
/// pending; out-of-coverage fails the whole transform. Modern stage: a
/// shift moves the point and finishes; out-of-coverage finishes with the
/// point unchanged on the horizontal path and fails on the full path.
pub open spec fn spec_apply(s: TransformSession, outcome: StageOutcome) -> TransformSession {
    match s.phase {
        TransformPhase::AwaitHistoric => match outcome {
            StageOutcome::Shifted(c) => TransformSession {
                mode: s.mode,
                phase: TransformPhase::AwaitModern,
                current: spec_shift(s.current, c),
            },
            StageOutcome::OutOfCoverage => TransformSession {
                mode: s.mode,
                phase: TransformPhase::Failed,
                current: s.current,
            },
        },
        TransformPhase::AwaitModern => match outcome {
            StageOutcome::Shifted(c) => TransformSession {
                mode: s.mode,
                phase: TransformPhase::Done,
                current: spec_shift(s.current, c),
            },
            StageOutcome::OutOfCoverage => match s.mode {
                TransformMode::Horizontal => TransformSession {
                    mode: s.mode,
                    phase: TransformPhase::Done,
                    current: s.current,
                },
                TransformMode::Full => TransformSession {
                    mode: s.mode,
                    phase: TransformPhase::Failed,
                    current: s.current,
                },
            },
        },
        _ => s,
    }
}

impl TransformSession {
    /// The point stays inside bounds that admit the at most two remaining
    /// shifts without overflow.
    pub open spec fn inv(&self) -> bool {
        match self.phase {
            TransformPhase::AwaitHistoric => point_bounded(self.current, POINT_LIMIT as int),
            TransformPhase::AwaitModern => point_bounded(
                self.current,
                POINT_LIMIT as int + COMPONENT_LIMIT as int,
            ),
            _ => point_bounded(self.current, POINT_LIMIT as int + 2 * COMPONENT_LIMIT as int),
        }
    }

    /// Starts a horizontal-only conversion of (latitude, longitude) under
    /// the given textual datum code; altitude is implicitly zero.
    pub fn horizontal(code: &str, latitude: i64, longitude: i64) -> (t: Self)
        requires
            -POINT_LIMIT <= latitude <= POINT_LIMIT,
            -POINT_LIMIT <= longitude <= POINT_LIMIT,
        ensures
            t == spec_start(
                spec_route_of(code@),
                GridPoint { latitude, longitude, altitude: 0 },
                TransformMode::Horizontal,
            ),
            t.inv(),
    {
        Self::start(code, GridPoint { latitude, longitude, altitude: 0 }, TransformMode::Horizontal)
    }

    /// Starts a full conversion of (latitude, longitude, altitude) under
    /// the given textual datum code.
    pub fn full(code: &str, latitude: i64, longitude: i64, altitude: i64) -> (t: Self)
        requires
            -POINT_LIMIT <= latitude <= POINT_LIMIT,
            -POINT_LIMIT <= longitude <= POINT_LIMIT,
            -POINT_LIMIT <= altitude <= POINT_LIMIT,
        ensures
            t == spec_start(
                spec_route_of(code@),
                GridPoint { latitude, longitude, altitude },
                TransformMode::Full,
            ),
            t.inv(),
    {
        Self::start(code, GridPoint { latitude, longitude, altitude }, TransformMode::Full)
    }

    /// Starts a session for a point under a textual datum code.
    pub fn start(code: &str, point: GridPoint, mode: TransformMode) -> (t: Self)
        requires
            point_bounded(point, POINT_LIMIT as int),
        ensures
            t == spec_start(spec_route_of(code@), point, mode),
            t.inv(),
    {
        let phase = match route_of_code(code) {
            DatumRoute::TwoStage => TransformPhase::AwaitHistoric,
            DatumRoute::ModernOnly => TransformPhase::AwaitModern,
            DatumRoute::Identity => TransformPhase::Done,
        };
        TransformSession { mode, phase, current: point }
    }

    /// The stage the provider must interpolate next, at `self.current`;
    /// nothing when the session is finished or failed.
    pub fn pending_stage(&self) -> (r: Option<StageKind>)
        ensures
            match self.phase {
                TransformPhase::AwaitHistoric => r == Some(StageKind::Historic),
                TransformPhase::AwaitModern => r == Some(StageKind::Modern),
                _ => r is None,
            },
    {
        match self.phase {
            TransformPhase::AwaitHistoric => Some(StageKind::Historic),
            TransformPhase::AwaitModern => Some(StageKind::Modern),
            _ => None,
        }
    }

    /// Feeds the outcome of the pending stage back into the session.
    pub fn apply_stage(&mut self, outcome: StageOutcome)
        requires
            old(self).phase is AwaitHistoric || old(self).phase is AwaitModern,
            old(self).inv(),
            outcome matches StageOutcome::Shifted(c) ==> bounded3(
                cp_model(c),
                COMPONENT_LIMIT as int,
            ),
        ensures
            *final(self) == spec_apply(*old(self), outcome),
            final(self).inv(),
    {
        match self.phase {
            TransformPhase::AwaitHistoric => match outcome {
                StageOutcome::Shifted(c) => {
                    self.current = GridPoint {
                        latitude: self.current.latitude + c.latitude,
                        longitude: self.current.longitude + c.longitude,
                        altitude: self.current.altitude + c.altitude,
                    };
                    self.phase = TransformPhase::AwaitModern;
                },
                StageOutcome::OutOfCoverage => {
                    self.phase = TransformPhase::Failed;
                },
            },
            TransformPhase::AwaitModern => match outcome {
                StageOutcome::Shifted(c) => {
                    self.current = GridPoint {
                        latitude: self.current.latitude + c.latitude,
                        longitude: self.current.longitude + c.longitude,
                        altitude: self.current.altitude + c.altitude,
                    };
                    self.phase = TransformPhase::Done;
                },
                StageOutcome::OutOfCoverage => {
                    match self.mode {
                        TransformMode::Horizontal => {
                            self.phase = TransformPhase::Done;
                        },
                        TransformMode::Full => {
                            self.phase = TransformPhase::Failed;
                        },
                    }
                },
            },
            _ => {},
        }
    }

    /// The finished (latitude, longitude); nothing while a stage is
    /// pending or after a failure.
    pub fn result_horizontal(&self) -> (r: Option<(i64, i64)>)
        ensures
            self.phase is Done ==> r == Some((self.current.latitude, self.current.longitude)),
            !(self.phase is Done) ==> r is None,
    {
        match self.phase {
            TransformPhase::Done => Some((self.current.latitude, self.current.longitude)),
            _ => None,
        }
    }

    /// The finished (latitude, longitude, altitude); nothing while a stage
    /// is pending or after a failure.
    pub fn result_full(&self) -> (r: Option<(i64, i64, i64)>)
        ensures
            self.phase is Done ==> r == Some(
                (self.current.latitude, self.current.longitude, self.current.altitude),
            ),
            !(self.phase is Done) ==> r is None,
    {
        match self.phase {
            TransformPhase::Done => Some(
                (self.current.latitude, self.current.longitude, self.current.altitude),
            ),
            _ => None,
        }
    }
}

/// A point whose code routes to the identity (JGD2011 or unknown) is done
/// at once with the input unchanged, on either entry point: its session
/// starts in the `Done` phase holding exactly the input point.
pub proof fn lemma_identity_round_trip(code: Seq<char>, p: GridPoint, mode: TransformMode)
    requires
        spec_route_of(code) == DatumRoute::Identity,
    ensures
        spec_start(spec_route_of(code), p, mode).phase is Done,
        spec_start(spec_route_of(code), p, mode).current == p,
{
}

/// The code "02" (JGD2011) normalizes to "2" and routes to the identity:
/// a JGD2011 input round-trips unchanged.
pub proof fn lemma_jgd2011_code_is_identity()
    ensures
        spec_route_of("02"@) == DatumRoute::Identity,
{
    reveal_strlit("02");
    reveal_strlit("2");
    assert(spec_trim("02"@) =~= "02"@);
    assert("02"@.drop_first() =~= "2"@);
    assert(spec_trim("02"@).drop_first() =~= "2"@);
    assert(spec_strip_leading_zeros("2"@) =~= "2"@);
    assert(spec_normalize_code("02"@) =~= seq!['2']);
}

} // verus!
