//! Parameter store: merging correction grids into one mesh-indexed table.
//!
//! Each grid file contributes displacement parameters at mesh nodes; grids
//! covering the same node accumulate additively, so the merged table is the
//! node-wise vector sum of every applied file and the merge order cannot
//! change the result. Displacements are integer counts of nano-units
//! (nano-arcseconds horizontally, nano-meters vertically). Which files apply
//! is decided by the earthquake correction policy; skipped and applied files
//! are both recorded in a provenance log.

use std::collections::HashMap;

use vstd::prelude::*;

use crate::dates::SurveyStartDate;
use crate::earthquake::{
    contains_seq, registry_view, spec_should_apply, should_apply_with_registry, str_contains,
    EarthquakeEvent,
};

verus! {

broadcast use vstd::std_specs::hash::group_hash_axioms;

/// Largest magnitude accepted for one displacement component of one file,
/// in nano-units.
pub const COMPONENT_LIMIT: i64 = 1_000_000_000_000_000;

/// Most grid files merged into one set; keeps every accumulated sum inside
/// a 64-bit integer.
pub const MAX_GRID_FILES: usize = 4096;

/// The displacement at one mesh node: latitude and longitude shifts in
/// nano-arcseconds, altitude shift in nano-meters.
#[derive(Debug, Clone, Copy, PartialEq, Eq, Structural)]
pub struct CorrectionParameter {
    pub latitude: i64,
    pub longitude: i64,
    pub altitude: i64,
}

/// A parameter as the unbounded integer triple specifications sum over.
pub open spec fn cp_model(p: CorrectionParameter) -> (int, int, int) {
    (p.latitude as int, p.longitude as int, p.altitude as int)
}

/// Component-wise sum of two displacement triples.
pub open spec fn sum3(a: (int, int, int), b: (int, int, int)) -> (int, int, int) {
    (a.0 + b.0, a.1 + b.1, a.2 + b.2)
}

/// Whether each component of `v` has magnitude at most `b`.
pub open spec fn bounded3(v: (int, int, int), b: int) -> bool {
    -b <= v.0 <= b && -b <= v.1 <= b && -b <= v.2 <= b
}

/// Whether every node of table `t` is bounded by `b`.
pub open spec fn table_bounded(t: Map<u32, (int, int, int)>, b: int) -> bool {
    forall|k: u32| t.contains_key(k) ==> bounded3(#[trigger] t[k], b)
}

/// The merged table as a map of integer triples.
pub open spec fn table_model(m: Map<u32, CorrectionParameter>) -> Map<u32, (int, int, int)> {
    m.map_values(|p: CorrectionParameter| cp_model(p))
}

/// Adds displacement `p` at node `k`: summed into an existing node,
/// inserted otherwise.
pub open spec fn upsert(m: Map<u32, (int, int, int)>, k: u32, p: (int, int, int)) -> Map<
    u32,
    (int, int, int),
> {
    if m.contains_key(k) {
        m.insert(k, sum3(m[k], p))
    } else {
        m.insert(k, p)
    }
}

/// Merges a file's entries into table `m`, in order.
pub open spec fn merge_entries(
    m: Map<u32, (int, int, int)>,
    es: Seq<(u32, CorrectionParameter)>,
) -> Map<u32, (int, int, int)>
    decreases es.len(),
{
    if es.len() == 0 {
        m
    } else {
        upsert(merge_entries(m, es.drop_last()), es.last().0, cp_model(es.last().1))
    }
}

/// Whether no mesh code repeats inside one file.
pub open spec fn unique_mesh_codes(es: Seq<(u32, CorrectionParameter)>) -> bool {
    forall|i: int, j: int|
        0 <= i < j < es.len() ==> (#[trigger] es[i]).0 != (#[trigger] es[j]).0
}

/// Two upserts reach the same table in either order.
proof fn lemma_upsert_commutes(
    m: Map<u32, (int, int, int)>,
    k1: u32,
    p1: (int, int, int),
    k2: u32,
    p2: (int, int, int),
)
    ensures
        upsert(upsert(m, k1, p1), k2, p2) == upsert(upsert(m, k2, p2), k1, p1),
{
    if k1 == k2 {
        assert(upsert(upsert(m, k1, p1), k2, p2) =~= upsert(upsert(m, k2, p2), k1, p1));
    } else {
        assert(upsert(upsert(m, k1, p1), k2, p2) =~= upsert(upsert(m, k2, p2), k1, p1));
    }
}

/// An upsert slides past a whole file's merge.
proof fn lemma_merge_entries_upsert(
    m: Map<u32, (int, int, int)>,
    k: u32,
    p: (int, int, int),
    es: Seq<(u32, CorrectionParameter)>,
)
    ensures
        merge_entries(upsert(m, k, p), es) == upsert(merge_entries(m, es), k, p),
    decreases es.len(),
{
    if es.len() > 0 {
        lemma_merge_entries_upsert(m, k, p, es.drop_last());
        lemma_upsert_commutes(
            merge_entries(m, es.drop_last()),
            k,
            p,
            es.last().0,
            cp_model(es.last().1),
        );
    }
}

/// Merging file `a` then file `b` yields the same table as merging
/// file `b` then file `a`, from any starting table: per mesh node the
/// result is a vector sum, and sums do not depend on order.
pub proof fn lemma_merge_commutative(
    m: Map<u32, (int, int, int)>,
    a: Seq<(u32, CorrectionParameter)>,
    b: Seq<(u32, CorrectionParameter)>,
)
    ensures
        merge_entries(merge_entries(m, a), b) == merge_entries(merge_entries(m, b), a),
    decreases b.len(),
{
    if b.len() == 0 {
    } else {
        lemma_merge_commutative(m, a, b.drop_last());
        lemma_merge_entries_upsert(
            merge_entries(m, b.drop_last()),
            b.last().0,
            cp_model(b.last().1),
            a,
        );
    }
}

/// Merging is associative over runs of entries: merging the concatenation
/// of two files equals merging the first and then the second.
pub proof fn lemma_merge_associative(
    m: Map<u32, (int, int, int)>,
    a: Seq<(u32, CorrectionParameter)>,
    b: Seq<(u32, CorrectionParameter)>,
)
    ensures
        merge_entries(m, a + b) == merge_entries(merge_entries(m, a), b),
    decreases b.len(),
{
    if b.len() == 0 {
        assert(a + b =~= a);
    } else {
        lemma_merge_associative(m, a, b.drop_last());
        assert((a + b).drop_last() =~= a + b.drop_last());
        assert((a + b).last() == b.last());
    }
}

/// What kind of grid sub-tree a file was found in.
#[derive(Debug, Clone, Copy, PartialEq, Eq, Structural)]
pub enum GridFileKind {
    /// A horizontal datum-shift grid.
    Horizontal,
    /// An elevation grid: seismic displacement or geoid revision.
    Elevation,
}

/// The parameter text format a grid file must be parsed with.
#[derive(Debug, Clone, Copy, PartialEq, Eq, Structural)]
pub enum GridFormat {
    /// Standard horizontal correction format.
    PatchJgd,
    /// Elevation correction format for seismic displacement files.
    PatchJgdH,
    /// Elevation format for geoid model revisions.
    HyokoRev,
}

/// What is to be done with one discovered file.
#[derive(Debug, Clone, Copy, PartialEq, Eq, Structural)]
pub enum FileAction {
    /// Not a grid parameter file; ignored silently.
    NotGridFile,
    /// A post-event correction the survey date excludes.
    SkippedSurveyAfterEvent,
    /// Parse with the given format and merge.
    Apply(GridFormat),
}

/// Whether `name` names a grid parameter file: a non-empty stem followed
/// by the `.par` extension.
pub open spec fn spec_is_par_name(name: Seq<char>) -> bool {
    name.len() > 4 && name[name.len() - 4] == '.' && name[name.len() - 3] == 'p' && name[name.len()
        - 2] == 'a' && name[name.len() - 1] == 'r'
}

/// The text format for a grid file: horizontal grids use the standard
/// horizontal format; an elevation file naming a geoid revision uses the
/// revision format, any other elevation file the seismic one.
pub open spec fn spec_format_for(kind: GridFileKind, name: Seq<char>) -> GridFormat {
    match kind {
        GridFileKind::Horizontal => GridFormat::PatchJgd,
        GridFileKind::Elevation => if contains_seq(name, "hyoko"@) {
            GridFormat::HyokoRev
        } else {
            GridFormat::PatchJgdH
        },
    }
}

/// The decision for one discovered file name.
pub open spec fn spec_action_for(
    kind: GridFileKind,
    name: Seq<char>,
    table: Seq<(Seq<char>, SurveyStartDate)>,
    survey_date: Option<SurveyStartDate>,
) -> FileAction {
    if !spec_is_par_name(name) {
        FileAction::NotGridFile
    } else if !spec_should_apply(table, name, survey_date) {
        FileAction::SkippedSurveyAfterEvent
    } else {
        FileAction::Apply(spec_format_for(kind, name))
    }
}

/// Whether `name` ends in the `.par` extension with a non-empty stem.
pub fn is_par_file_name(name: &str) -> (r: bool)
    ensures
        r == spec_is_par_name(name@),
{
    let n = name.unicode_len();
    if n <= 4 {
        return false;
    }
    name.get_char(n - 4) == '.' && name.get_char(n - 3) == 'p' && name.get_char(n - 2) == 'a'
        && name.get_char(n - 1) == 'r'
}

/// The parse format for a discovered grid file.
pub fn format_for(kind: GridFileKind, name: &str) -> (r: GridFormat)
    ensures
        r == spec_format_for(kind, name@),
{
    match kind {
        GridFileKind::Horizontal => GridFormat::PatchJgd,
        GridFileKind::Elevation => {
            if str_contains(name, "hyoko") {
                GridFormat::HyokoRev
            } else {
                GridFormat::PatchJgdH
            }
        },
    }
}

/// Decides what to do with one discovered file: ignore non-grid files,
/// skip gated post-event corrections, parse and merge the rest.
pub fn action_for(
    kind: GridFileKind,
    name: &str,
    events: &Vec<EarthquakeEvent>,
    survey_date: Option<SurveyStartDate>,
) -> (r: FileAction)
    ensures
        r == spec_action_for(kind, name@, registry_view(events@), survey_date),
{
    if !is_par_file_name(name) {
        FileAction::NotGridFile
    } else if !should_apply_with_registry(events, name, survey_date) {
        FileAction::SkippedSurveyAfterEvent
    } else {
        FileAction::Apply(format_for(kind, name))
    }
}

/// One discovered grid file: its name, the sub-tree it came from, and its
/// parsed entries (empty when it was not parsed).
#[derive(Debug)]
pub struct GridFile {
    pub name: String,
    pub kind: GridFileKind,
    pub entries: Vec<(u32, CorrectionParameter)>,
}

/// The merged table of a run of discovered files, in order: a file merges
/// exactly when the policy decides `Apply` for it.
pub open spec fn spec_merged_tables(
    m: Map<u32, (int, int, int)>,
    files: Seq<GridFile>,
    table: Seq<(Seq<char>, SurveyStartDate)>,
    survey_date: Option<SurveyStartDate>,
) -> Map<u32, (int, int, int)>
    decreases files.len(),
{
    if files.len() == 0 {
        m
    } else {
        let prev = spec_merged_tables(m, files.drop_last(), table, survey_date);
        let f = files.last();
        if spec_action_for(f.kind, f.name@, table, survey_date) is Apply {
            merge_entries(prev, f.entries@)
        } else {
            prev
        }
    }
}

/// Two discovered files build the same table in either order, from any
/// starting table: whichever of them the policy applies contributes its
/// node-wise vector sum, and sums do not depend on order.
pub proof fn lemma_file_merge_commutative(
    m: Map<u32, (int, int, int)>,
    a: GridFile,
    b: GridFile,
    table: Seq<(Seq<char>, SurveyStartDate)>,
    survey_date: Option<SurveyStartDate>,
)
    ensures
        spec_merged_tables(m, seq![a, b], table, survey_date) == spec_merged_tables(
            m,
            seq![b, a],
            table,
            survey_date,
        ),
{
    reveal_with_fuel(spec_merged_tables, 4);
    assert(seq![a, b].drop_last() =~= seq![a]);
    assert(seq![b, a].drop_last() =~= seq![b]);
    assert(seq![a].drop_last() =~= Seq::<GridFile>::empty());
    assert(seq![b].drop_last() =~= Seq::<GridFile>::empty());
    assert(seq![a, b].last() == b && seq![b, a].last() == a);
    assert(seq![a].last() == a && seq![b].last() == b);
    if spec_action_for(a.kind, a.name@, table, survey_date) is Apply && spec_action_for(
        b.kind,
        b.name@,
        table,
        survey_date,
    ) is Apply {
        lemma_merge_commutative(m, a.entries@, b.entries@);
    }
}

/// The provenance lines of a run of discovered files: one line for each
/// grid file, saying whether it was applied or why it was skipped.
pub open spec fn spec_provenance(
    files: Seq<GridFile>,
    table: Seq<(Seq<char>, SurveyStartDate)>,
    survey_date: Option<SurveyStartDate>,
) -> Seq<Seq<char>>
    decreases files.len(),
{
    if files.len() == 0 {
        Seq::empty()
    } else {
        let rest = spec_provenance(files.drop_last(), table, survey_date);
        let f = files.last();
        match spec_action_for(f.kind, f.name@, table, survey_date) {
            FileAction::NotGridFile => rest,
            FileAction::SkippedSurveyAfterEvent => rest.push(
                f.name@ + " (skipped: survey after earthquake)"@,
            ),
            FileAction::Apply(_) => rest.push(f.name@ + " (applied)"@),
        }
    }
}

/// The provenance log as the specifications see it.
pub open spec fn provenance_view(p: Seq<String>) -> Seq<Seq<char>> {
    p.map(|i: int, s: String| s@)
}

/// The provenance lines as one text, each line ended by a newline.
pub open spec fn spec_joined_lines(lines: Seq<Seq<char>>) -> Seq<char>
    decreases lines.len(),
{
    if lines.len() == 0 {
        Seq::empty()
    } else {
        spec_joined_lines(lines.drop_last()) + lines.last() + "\n"@
    }
}

/// One provenance line for a grid file.
fn provenance_line(name: &str, applied: bool) -> (r: String)
    ensures
        applied ==> r@ == name@ + " (applied)"@,
        !applied ==> r@ == name@ + " (skipped: survey after earthquake)"@,
{
    let base = String::from_str(name);
    if applied {
        base.concat(" (applied)")
    } else {
        base.concat(" (skipped: survey after earthquake)")
    }
}

/// One merged, immutable set of correction parameters: the mesh-indexed
/// displacement table, the survey date its gating used, and a provenance
/// log naming every grid file that was considered.
#[derive(Debug)]
pub struct ParameterSet {
    pub parameters: HashMap<u32, CorrectionParameter>,
    pub survey_date: Option<SurveyStartDate>,
    pub provenance: Vec<String>,
}

impl ParameterSet {
    /// Every accumulated displacement stays within the range the merge
    /// guarantees.
    pub open spec fn well_formed(&self) -> bool {
        table_bounded(
            table_model(self.parameters@),
            (MAX_GRID_FILES * COMPONENT_LIMIT) as int,
        )
    }

    /// The provenance log as one human-readable string, one line per
    /// considered grid file.
    pub fn description(&self) -> (r: String)
        ensures
            r@ == spec_joined_lines(provenance_view(self.provenance@)),
    {
        let mut out = String::new();
        let n = self.provenance.len();
        let mut i: usize = 0;
        proof {
            assert(provenance_view(self.provenance@).take(0) =~= Seq::<Seq<char>>::empty());
        }
        while i < n
            invariant
                0 <= i <= n,
                n == self.provenance@.len(),
                out@ == spec_joined_lines(provenance_view(self.provenance@).take(i as int)),
            decreases n - i,
        {
            out.append(self.provenance[i].as_str());
            out.append("\n");
            proof {
                let lines = provenance_view(self.provenance@);
                assert(lines.take(i as int + 1).drop_last() =~= lines.take(i as int));
                assert(lines.take(i as int + 1).last() == lines[i as int]);
                assert(lines[i as int] == self.provenance@[i as int]@);
            }
            i += 1;
        }
        proof {
            let lines = provenance_view(self.provenance@);
            assert(lines.take(n as int) =~= lines);
        }
        out
    }

    /// An explicitly empty set carrying one provenance line that says why
    /// it is empty; used when the grid directory is absent or no grid file
    /// was found.
    pub fn empty_tagged(tag: &str) -> (r: Self)
        ensures
            table_model(r.parameters@) == Map::<u32, (int, int, int)>::empty(),
            r.survey_date is None,
            provenance_view(r.provenance@) =~= seq![tag@],
            r.well_formed(),
    {
        let parameters: HashMap<u32, CorrectionParameter> = HashMap::new();
        let mut provenance: Vec<String> = Vec::new();
        provenance.push(String::from_str(tag));
        proof {
            assert(table_model(parameters@) =~= Map::<u32, (int, int, int)>::empty());
        }
        ParameterSet { parameters, survey_date: None, provenance }
    }
}

/// Merges one file's entries into the accumulated table.
fn merge_file_entries(
    table: &mut HashMap<u32, CorrectionParameter>,
    entries: &Vec<(u32, CorrectionParameter)>,
    files_done: usize,
)
    requires
        files_done < MAX_GRID_FILES,
        unique_mesh_codes(entries@),
        forall|i: int|
            0 <= i < entries@.len() ==> bounded3(
                cp_model((#[trigger] entries@[i]).1),
                COMPONENT_LIMIT as int,
            ),
        table_bounded(table_model(old(table)@), files_done * (COMPONENT_LIMIT as int)),
    ensures
        table_model(final(table)@) == merge_entries(table_model(old(table)@), entries@),
        table_bounded(table_model(final(table)@), (files_done + 1) * (COMPONENT_LIMIT as int)),
{
    let n = entries.len();
    let mut j: usize = 0;
    proof {
        assert(entries@.take(0) =~= Seq::<(u32, CorrectionParameter)>::empty());
    }
    while j < n
        invariant
            0 <= j <= n,
            n == entries@.len(),
            files_done < MAX_GRID_FILES,
            unique_mesh_codes(entries@),
            forall|i: int|
                0 <= i < entries@.len() ==> bounded3(
                    cp_model((#[trigger] entries@[i]).1),
                    COMPONENT_LIMIT as int,
                ),
            table_model(table@) == merge_entries(table_model(old(table)@), entries@.take(j as int)),
            forall|k: u32|
                table_model(table@).contains_key(k) ==> {
                    if exists|t: int| 0 <= t < j && (#[trigger] entries@[t]).0 == k {
                        bounded3(
                            #[trigger] table_model(table@)[k],
                            (files_done + 1) * (COMPONENT_LIMIT as int),
                        )
                    } else {
                        bounded3(table_model(table@)[k], files_done * (COMPONENT_LIMIT as int))
                    }
                },
        decreases n - j,
    {
        let (k, p) = entries[j];
        let ghost pre = table_model(table@);
        proof {
            assert(!(exists|t: int| 0 <= t < j && (#[trigger] entries@[t]).0 == k));
            assert(bounded3(cp_model(entries@[j as int].1), COMPONENT_LIMIT as int));
        }
        let updated = match table.get(&k) {
            Some(existing) => {
                proof {
                    assert(pre.contains_key(k));
                    assert(pre[k] == cp_model(*existing));
                    assert(bounded3(pre[k], files_done * (COMPONENT_LIMIT as int)));
                }
                CorrectionParameter {
                    latitude: existing.latitude + p.latitude,
                    longitude: existing.longitude + p.longitude,
                    altitude: existing.altitude + p.altitude,
                }
            },
            None => p,
        };
        table.insert(k, updated);
        proof {
            assert(table_model(table@) =~= upsert(pre, k, cp_model(p)));
            assert(entries@.take(j as int + 1).drop_last() =~= entries@.take(j as int));
            assert(entries@.take(j as int + 1).last() == entries@[j as int]);
            assert forall|k2: u32| table_model(table@).contains_key(k2) implies {
                if exists|t: int| 0 <= t < j + 1 && (#[trigger] entries@[t]).0 == k2 {
                    bounded3(
                        #[trigger] table_model(table@)[k2],
                        (files_done + 1) * (COMPONENT_LIMIT as int),
                    )
                } else {
                    bounded3(table_model(table@)[k2], files_done * (COMPONENT_LIMIT as int))
                }
            } by {
                if k2 == k {
                    assert(0 <= j < j + 1 && entries@[j as int].0 == k2);
                } else {
                    assert(table_model(table@)[k2] == pre[k2]);
                    if exists|t: int| 0 <= t < j + 1 && (#[trigger] entries@[t]).0 == k2 {
                        let t = choose|t: int| 0 <= t < j + 1 && (#[trigger] entries@[t]).0 == k2;
                        assert(t < j);
                    }
                }
            }
        }
        j += 1;
    }
    proof {
        assert(entries@.take(n as int) =~= entries@);
    }
}

/// Builds one parameter set from the discovered grid files: decides each
/// file by the earthquake policy, merges the applied ones additively in
/// order, and records a provenance line for every grid file.
pub fn assemble_parameter_set(
    files: &Vec<GridFile>,
    events: &Vec<EarthquakeEvent>,
    survey_date: Option<SurveyStartDate>,
) -> (r: ParameterSet)
    requires
        files@.len() <= MAX_GRID_FILES,
        forall|f: int| 0 <= f < files@.len() ==> unique_mesh_codes((#[trigger] files@[f]).entries@),
        forall|f: int, i: int|
            0 <= f < files@.len() && 0 <= i < files@[f].entries@.len() ==> bounded3(
                cp_model((#[trigger] files@[f].entries@[i]).1),
                COMPONENT_LIMIT as int,
            ),
    ensures
        table_model(r.parameters@) == spec_merged_tables(
            Map::<u32, (int, int, int)>::empty(),
            files@,
            registry_view(events@),
            survey_date,
        ),
        provenance_view(r.provenance@) == spec_provenance(
            files@,
            registry_view(events@),
            survey_date,
        ),
        r.survey_date == survey_date,
        r.well_formed(),
{
    let ghost table = registry_view(events@);
    let mut parameters: HashMap<u32, CorrectionParameter> = HashMap::new();
    let mut provenance: Vec<String> = Vec::new();
    let mut applied: usize = 0;
    let n = files.len();
    let mut i: usize = 0;
    proof {
        assert(table_model(parameters@) =~= Map::<u32, (int, int, int)>::empty());
        assert(files@.take(0) =~= Seq::<GridFile>::empty());
        assert(provenance_view(provenance@) =~= Seq::<Seq<char>>::empty());
    }
    while i < n
        invariant
            0 <= i <= n,
            n == files@.len(),
            n <= MAX_GRID_FILES,
            applied <= i,
            table == registry_view(events@),
            forall|f: int|
                0 <= f < files@.len() ==> unique_mesh_codes((#[trigger] files@[f]).entries@),
            forall|f: int, j: int|
                0 <= f < files@.len() && 0 <= j < files@[f].entries@.len() ==> bounded3(
                    cp_model((#[trigger] files@[f].entries@[j]).1),
                    COMPONENT_LIMIT as int,
                ),
            table_model(parameters@) == spec_merged_tables(
                Map::<u32, (int, int, int)>::empty(),
                files@.take(i as int),
                table,
                survey_date,
            ),
            provenance_view(provenance@) == spec_provenance(
                files@.take(i as int),
                table,
                survey_date,
            ),
            table_bounded(table_model(parameters@), applied * (COMPONENT_LIMIT as int)),
        decreases n - i,
    {
        let f = &files[i];
        let action = action_for(f.kind, f.name.as_str(), events, survey_date);
        proof {
            assert(files@.take(i as int + 1).drop_last() =~= files@.take(i as int));
            assert(files@.take(i as int + 1).last() == files@[i as int]);
        }
        match action {
            FileAction::NotGridFile => {},
            FileAction::SkippedSurveyAfterEvent => {
                let ghost before = provenance@;
                let line = provenance_line(f.name.as_str(), false);
                provenance.push(line);
                proof {
                    assert(provenance@ == before.push(line));
                    assert(provenance_view(provenance@) =~= provenance_view(before).push(line@));
                    assert(provenance_view(provenance@) =~= spec_provenance(
                        files@.take(i as int + 1),
                        table,
                        survey_date,
                    ));
                }
            },
            FileAction::Apply(_) => {
                merge_file_entries(&mut parameters, &f.entries, applied);
                applied += 1;
                let ghost before = provenance@;
                let line = provenance_line(f.name.as_str(), true);
                provenance.push(line);
                proof {
                    assert(provenance@ == before.push(line));
                    assert(provenance_view(provenance@) =~= provenance_view(before).push(line@));
                    assert(provenance_view(provenance@) =~= spec_provenance(
                        files@.take(i as int + 1),
                        table,
                        survey_date,
                    ));
                }
            },
        }
        i += 1;
    }
    proof {
        assert(files@.take(n as int) =~= files@);
        assert forall|k: u32| table_model(parameters@).contains_key(k) implies bounded3(
            #[trigger] table_model(parameters@)[k],
            (MAX_GRID_FILES * COMPONENT_LIMIT) as int,
        ) by {
            assert(bounded3(table_model(parameters@)[k], applied * (COMPONENT_LIMIT as int)));
        }
    }
    ParameterSet { parameters, survey_date, provenance }
}

} // verus!
